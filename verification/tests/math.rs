use tetra::math::{saturate, Rectangle, Vec2, FIXED_ONE};

#[test]
fn vectors_are_built_from_their_components() {
    assert_eq!(Vec2::new(3, -4), Vec2 { x: 3, y: -4 });
    assert_eq!(Vec2::zero(), Vec2 { x: 0, y: 0 });
    assert_eq!(Vec2::broadcast(7), Vec2 { x: 7, y: 7 });
    assert_eq!(FIXED_ONE, 65536);
}

#[test]
fn a_row_steps_to_the_right_by_the_cell_width() {
    let cells = Rectangle::row(0, 272, 16, 16, 8);
    assert_eq!(cells.len(), 8);
    for (i, cell) in cells.iter().enumerate() {
        assert_eq!(*cell, Rectangle::new(16 * i as i32, 272, 16, 16));
    }
}

#[test]
fn a_column_steps_down_by_the_cell_height() {
    let cells = Rectangle::column(5, -10, 4, 10, 3);
    assert_eq!(
        cells,
        vec![
            Rectangle::new(5, -10, 4, 10),
            Rectangle::new(5, 0, 4, 10),
            Rectangle::new(5, 10, 4, 10),
        ]
    );
}

#[test]
fn a_row_of_no_cells_is_empty() {
    assert_eq!(Rectangle::row(i32::MAX, 0, i32::MAX, 1, 0), vec![]);
}

#[test]
fn a_row_may_end_at_the_last_i32() {
    let cells = Rectangle::row(i32::MAX - 20, 0, 10, 1, 3);
    assert_eq!(cells[2].x, i32::MAX);
    let cells = Rectangle::row(10, 0, -5, 1, 4);
    assert_eq!(cells[3].x, -5);
}

#[test]
fn cells_beyond_the_range_of_coordinates_stay_at_its_end() {
    let cells = Rectangle::row(i32::MAX - 15, 3, 10, 1, 4);
    let starts: Vec<i32> = cells.iter().map(|cell| cell.x).collect();
    assert_eq!(starts, vec![i32::MAX - 15, i32::MAX - 5, i32::MAX, i32::MAX]);
    let cells = Rectangle::column(3, i32::MIN + 1, 1, i32::MIN, 3);
    let starts: Vec<i32> = cells.iter().map(|cell| cell.y).collect();
    assert_eq!(starts, vec![i32::MIN + 1, i32::MIN, i32::MIN]);
    assert_eq!(cells[2], Rectangle::new(3, i32::MIN, 1, i32::MIN));
}

#[test]
fn saturation_picks_the_nearest_coordinate() {
    assert_eq!(saturate(0), 0);
    assert_eq!(saturate(-7), -7);
    assert_eq!(saturate(i32::MAX as i128), i32::MAX);
    assert_eq!(saturate(i32::MAX as i128 + 1), i32::MAX);
    assert_eq!(saturate(i32::MIN as i128), i32::MIN);
    assert_eq!(saturate(i32::MIN as i128 - 1), i32::MIN);
    assert_eq!(saturate(i128::MAX), i32::MAX);
    assert_eq!(saturate(i128::MIN), i32::MIN);
}
