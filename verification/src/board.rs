//! The game board: a small grid of cells addressed either by an `(x, y)`
//! pair of coordinates or by a linear index, related by a bijection.

use vstd::prelude::*;

verus! {

/// A board coordinate, in cells.
pub type BoardCoord = u8;

/// Width of the game board, in cells.
pub const BOARD_WIDTH: BoardCoord = 6;

/// Height of the game board, in cells.
pub const BOARD_HEIGHT: BoardCoord = 6;

/// Number of cells on the board (`BOARD_WIDTH * BOARD_HEIGHT`).
pub const BOARD_LENGTH: usize = 36;

/// A board cell, addressed by its column and row.
pub type Position = (BoardCoord, BoardCoord);

/// Whether `(x, y)` names a cell of the board.
pub open spec fn spec_xy_on_board(x: BoardCoord, y: BoardCoord) -> bool {
    x < BOARD_WIDTH && y < BOARD_HEIGHT
}

/// Whether `index` names a cell of the board.
pub open spec fn spec_index_on_board(index: usize) -> bool {
    index < BOARD_LENGTH
}

/// The linear index of cell `(x, y)`, or `None` when off the board.
pub open spec fn spec_board_index(x: BoardCoord, y: BoardCoord) -> Option<usize> {
    if spec_xy_on_board(x, y) {
        Some((y * BOARD_WIDTH + x) as usize)
    } else {
        None
    }
}

/// The cell coordinates of linear index `index`, or `None` when off the board.
pub open spec fn spec_board_xy(index: usize) -> Option<(BoardCoord, BoardCoord)> {
    if spec_index_on_board(index) {
        Some(((index as int % BOARD_WIDTH as int) as BoardCoord,
              (index as int / BOARD_WIDTH as int) as BoardCoord))
    } else {
        None
    }
}

pub fn xy_on_board(x: BoardCoord, y: BoardCoord) -> (r: bool)
    ensures
        r == spec_xy_on_board(x, y),
{
    x < BOARD_WIDTH && y < BOARD_HEIGHT
}

pub fn is_index_on_board(piece_index: usize) -> (r: bool)
    ensures
        r == spec_index_on_board(piece_index),
{
    piece_index < BOARD_LENGTH
}

/// The linear index of cell `(x, y)`: `y * BOARD_WIDTH + x`, and `None`
/// for every pair that lies outside the board.
pub fn get_board_index(x: BoardCoord, y: BoardCoord) -> (r: Option<usize>)
    ensures
        r == spec_board_index(x, y),
{
    if !xy_on_board(x, y) {
        return None;
    }

    let result = (y * BOARD_WIDTH + x) as usize;

    if is_index_on_board(result) {
        Some(result)
    } else {
        None
    }
}

/// The cell coordinates of linear index `index`, and `None` for every
/// index that lies outside the board.
pub fn get_board_xy(index: usize) -> (r: Option<(BoardCoord, BoardCoord)>)
    ensures
        r == spec_board_xy(index),
{
    if !is_index_on_board(index) {
        return None;
    }

    let result = (index as BoardCoord % BOARD_WIDTH, index as BoardCoord / BOARD_WIDTH);

    if xy_on_board(result.0, result.1) {
        Some(result)
    } else {
        None
    }
}

/// The board bijection, index first: a valid linear index maps to a cell
/// whose index it is; an invalid one maps to nothing.
pub proof fn lemma_index_to_xy_to_index(index: usize)
    ensures
        match spec_board_xy(index) {
            Some(xy) => spec_board_index(xy.0, xy.1) == Some(index),
            None => !spec_index_on_board(index),
        },
{
    if index < BOARD_LENGTH {
        let x = index as int % BOARD_WIDTH as int;
        let y = index as int / BOARD_WIDTH as int;
        assert(y * BOARD_WIDTH as int + x == index as int) by (nonlinear_arith)
            requires
                x == index as int % 6,
                y == index as int / 6,
                0 <= (index as int) && (index as int) < 36;
    }
}

/// The board bijection, coordinates first: a cell of the board maps to a
/// linear index that maps back to it; a pair off the board maps to nothing.
pub proof fn lemma_xy_to_index_to_xy(x: BoardCoord, y: BoardCoord)
    ensures
        match spec_board_index(x, y) {
            Some(index) => spec_board_xy(index) == Some((x, y)),
            None => !spec_xy_on_board(x, y),
        },
{
    if spec_xy_on_board(x, y) {
        let index = y * BOARD_WIDTH as int + x;
        assert(index % BOARD_WIDTH as int == x as int && index / BOARD_WIDTH as int == y as int)
            by (nonlinear_arith)
            requires
                index == y * 6 + x,
                0 <= x < 6,
                0 <= y < 6;
    }
}

} // verus!
