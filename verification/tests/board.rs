use tilegame::board::{get_board_index, get_board_xy, is_index_on_board, xy_on_board, BOARD_LENGTH};

#[test]
fn index_of_origin_is_zero() {
    assert_eq!(get_board_index(0, 0), Some(0));
}

#[test]
fn index_of_last_cell() {
    assert_eq!(get_board_index(5, 5), Some(35));
}

#[test]
fn index_is_row_major() {
    assert_eq!(get_board_index(3, 4), Some(4 * 6 + 3));
}

#[test]
fn xy_of_last_cell() {
    assert_eq!(get_board_xy(35), Some((5, 5)));
}

#[test]
fn off_board_pairs_have_no_index() {
    assert_eq!(get_board_index(6, 0), None);
    assert_eq!(get_board_index(0, 6), None);
    assert_eq!(get_board_index(255, 255), None);
}

#[test]
fn off_board_indices_have_no_xy() {
    assert_eq!(get_board_xy(36), None);
    assert_eq!(get_board_xy(usize::MAX), None);
}

#[test]
fn index_round_trips_for_all_entity_ids() {
    for i in 0..256usize {
        let expected = if is_index_on_board(i) { Some(i) } else { None };
        assert_eq!(expected, get_board_xy(i).and_then(|(x, y)| get_board_index(x, y)));
    }
}

#[test]
fn xy_round_trips_for_all_small_pairs() {
    for x in 0..16u8 {
        for y in 0..16u8 {
            let expected = if xy_on_board(x, y) { Some((x, y)) } else { None };
            assert_eq!(expected, get_board_index(x, y).and_then(get_board_xy));
        }
    }
}

#[test]
fn board_length_matches_dimensions() {
    assert_eq!(BOARD_LENGTH, 36);
}
