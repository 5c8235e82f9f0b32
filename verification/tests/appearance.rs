use tilegame::appearance::{
    cell_x_to_px_x, cell_y_to_px_y, offset_by, Appearance, IntraCellPosition, Shape, _2by2, _3by3,
};

#[test]
fn offset_by_adds_positive_offsets() {
    assert_eq!(offset_by(10, 5), 15);
}

#[test]
fn offset_by_subtracts_negative_offsets() {
    assert_eq!(offset_by(10, -3), 7);
}

#[test]
fn offset_by_saturates_at_zero() {
    assert_eq!(offset_by(10, -15), 0);
}

#[test]
fn offset_by_saturates_at_the_top() {
    assert_eq!(offset_by(usize::MAX - 1, 5), usize::MAX);
}

#[test]
fn cell_origin_reserves_one_gridline_pixel() {
    assert_eq!(cell_x_to_px_x(0), 1);
    assert_eq!(cell_y_to_px_y(0), 1);
    assert_eq!(cell_x_to_px_x(5), 5 * 33 + 1);
}

#[test]
fn four_slot_offsets_are_quarter_spaced() {
    assert_eq!(IntraCellPosition::Four(_2by2::_0_0).get_offset(), (8, 8));
    assert_eq!(IntraCellPosition::Four(_2by2::_1_0).get_offset(), (24, 8));
    assert_eq!(IntraCellPosition::Four(_2by2::_0_1).get_offset(), (8, 24));
    assert_eq!(IntraCellPosition::Four(_2by2::_1_1).get_offset(), (24, 24));
}

#[test]
fn nine_slot_offsets_are_sixth_spaced() {
    assert_eq!(IntraCellPosition::Nine(_3by3::_0_0).get_offset(), (5, 5));
    assert_eq!(IntraCellPosition::Nine(_3by3::_1_1).get_offset(), (15, 15));
    assert_eq!(IntraCellPosition::Nine(_3by3::_2_2).get_offset(), (26, 26));
    assert_eq!(IntraCellPosition::Nine(_3by3::_2_0).get_offset(), (26, 5));
}

#[test]
fn intra_steps_move_one_slot() {
    assert!(IntraCellPosition::Four(_2by2::_1_0).left() == IntraCellPosition::Four(_2by2::_0_0));
    assert!(IntraCellPosition::Four(_2by2::_0_0).right() == IntraCellPosition::Four(_2by2::_1_0));
    assert!(IntraCellPosition::Nine(_3by3::_1_1).up() == IntraCellPosition::Nine(_3by3::_1_0));
    assert!(IntraCellPosition::Nine(_3by3::_1_1).down() == IntraCellPosition::Nine(_3by3::_1_2));
}

#[test]
fn intra_steps_stop_at_the_sub_grid_edge() {
    assert!(IntraCellPosition::Four(_2by2::_0_0).left() == IntraCellPosition::Four(_2by2::_0_0));
    assert!(IntraCellPosition::Four(_2by2::_1_1).right() == IntraCellPosition::Four(_2by2::_1_1));
    assert!(IntraCellPosition::Nine(_3by3::_2_0).up() == IntraCellPosition::Nine(_3by3::_2_0));
    assert!(IntraCellPosition::Nine(_3by3::_2_2).down() == IntraCellPosition::Nine(_3by3::_2_2));
}

#[test]
fn is_offset_sees_either_component() {
    let mut a = Appearance { colour: 0, shape: Shape::FullCell, offset: (0, 0) };
    assert!(!a.is_offset());
    a.offset = (1, 0);
    assert!(a.is_offset());
    a.offset = (0, -1);
    assert!(a.is_offset());
}

#[test]
fn reduce_offset_steps_both_components_toward_zero() {
    let mut a = Appearance { colour: 0, shape: Shape::FullCell, offset: (32, -32) };
    a.reduce_offset(8);
    assert_eq!(a.offset, (24, -24));
}

#[test]
fn reduce_offset_never_crosses_zero() {
    let mut a = Appearance { colour: 0, shape: Shape::FullCell, offset: (5, -5) };
    a.reduce_offset(8);
    assert_eq!(a.offset, (0, 0));
}

#[test]
fn full_cell_offset_decays_to_zero_in_four_steps() {
    // ceil(32 / 8) == 4: the slide takes exactly four frames.
    let mut a = Appearance { colour: 0, shape: Shape::FullCell, offset: (32, 0) };
    let mut seen = Vec::new();
    for _ in 0..4 {
        a.reduce_offset(8);
        seen.push(a.offset.0);
    }
    assert_eq!(seen, vec![24, 16, 8, 0]);
}
