use earthrs_modis::grid::{cell_color, cell_position, tiles, transparent, Rgba, Tile, FILL_VALUE};

#[test]
fn position_is_row_major() {
    assert_eq!(cell_position(0, 5, 5), Some((0, 0)));
    assert_eq!(cell_position(4, 5, 5), Some((0, 4)));
    assert_eq!(cell_position(5, 5, 5), Some((1, 0)));
    assert_eq!(cell_position(13, 5, 5), Some((2, 3)));
    assert_eq!(cell_position(24, 5, 5), Some((4, 4)));
    assert_eq!(cell_position(7, 2, 4), Some((1, 3)));
}

#[test]
fn position_outside_the_grid_is_none() {
    assert_eq!(cell_position(25, 5, 5), None);
    assert_eq!(cell_position(8, 2, 4), None);
    assert_eq!(cell_position(0, 0, 5), None);
    assert_eq!(cell_position(0, 5, 0), None);
    assert_eq!(cell_position(0, 0, 0), None);
    assert_eq!(cell_position(usize::MAX, 3, 3), None);
}

#[test]
fn position_of_huge_grid_does_not_overflow() {
    assert_eq!(cell_position(usize::MAX, usize::MAX, usize::MAX), Some((1, 0)));
    assert_eq!(cell_position(usize::MAX - 1, usize::MAX, usize::MAX), Some((0, usize::MAX - 1)));
}

#[test]
fn positions_of_a_grid_are_a_bijection() {
    let (nrows, ncols) = (7usize, 11usize);
    let mut seen = vec![false; nrows * ncols];
    for index in 0..nrows * ncols {
        let (row, col) = cell_position(index, nrows, ncols).expect("inside");
        assert!(row < nrows && col < ncols);
        assert_eq!(row * ncols + col, index);
        assert!(!seen[row * ncols + col]);
        seen[row * ncols + col] = true;
    }
    assert!(seen.iter().all(|s| *s));
}

#[test]
fn fill_value_is_254_and_transparent() {
    assert_eq!(FILL_VALUE, 254);
    assert_eq!(transparent(), Rgba { red: 0, green: 0, blue: 0, alpha: 0 });
    assert_eq!(cell_color(254), transparent());
}

#[test]
fn gradient_values() {
    assert_eq!(cell_color(0), Rgba { red: 0, green: 255, blue: 0, alpha: 255 });
    assert_eq!(cell_color(1), Rgba { red: 1, green: 254, blue: 0, alpha: 255 });
    assert_eq!(cell_color(65), Rgba { red: 65, green: 190, blue: 0, alpha: 255 });
    assert_eq!(cell_color(128), Rgba { red: 128, green: 127, blue: 0, alpha: 255 });
    assert_eq!(cell_color(253), Rgba { red: 253, green: 2, blue: 0, alpha: 255 });
    assert_eq!(cell_color(255), Rgba { red: 255, green: 0, blue: 0, alpha: 255 });
}

#[test]
fn values_outside_the_gradient_take_the_nearer_end() {
    assert_eq!(cell_color(-1), Rgba { red: 0, green: 255, blue: 0, alpha: 255 });
    assert_eq!(cell_color(i32::MIN), Rgba { red: 0, green: 255, blue: 0, alpha: 255 });
    assert_eq!(cell_color(256), Rgba { red: 255, green: 0, blue: 0, alpha: 255 });
    assert_eq!(cell_color(i32::MAX), Rgba { red: 255, green: 0, blue: 0, alpha: 255 });
}

#[test]
fn gradient_is_strictly_monotonic() {
    let values: Vec<i32> = (0..=255).filter(|v| *v != FILL_VALUE).collect();
    for pair in values.windows(2) {
        let (low, high) = (cell_color(pair[0]), cell_color(pair[1]));
        assert!(low.red < high.red);
        assert!(low.green > high.green);
        assert_eq!(low.alpha, 255);
        assert_eq!(low.blue, 0);
    }
}

#[test]
fn tiles_of_a_slice() {
    let data = vec![13, 254, 9, 0, 255, 6];
    let drawn = tiles(&data, 2, 3).expect("six cells");
    assert_eq!(
        drawn,
        vec![
            Tile { row: 0, col: 0, color: Rgba { red: 13, green: 242, blue: 0, alpha: 255 } },
            Tile { row: 0, col: 1, color: Rgba { red: 0, green: 0, blue: 0, alpha: 0 } },
            Tile { row: 0, col: 2, color: Rgba { red: 9, green: 246, blue: 0, alpha: 255 } },
            Tile { row: 1, col: 0, color: Rgba { red: 0, green: 255, blue: 0, alpha: 255 } },
            Tile { row: 1, col: 1, color: Rgba { red: 255, green: 0, blue: 0, alpha: 255 } },
            Tile { row: 1, col: 2, color: Rgba { red: 6, green: 249, blue: 0, alpha: 255 } },
        ]
    );
}

#[test]
fn fill_cells_are_transparent_among_any_neighbours() {
    let data = vec![13, 13, 9, 9, 6, 10, 9, 4, 254, 254, 11, 1, 254, 3, 9, 5, 5, 5, 9, 11, 1, 1, 18, 254, 254];
    let drawn = tiles(&data, 5, 5).expect("twenty-five cells");
    for (tile, value) in drawn.iter().zip(data.iter()) {
        assert_eq!(tile.color == transparent(), *value == 254);
    }
    let all_fill = tiles(&vec![254; 4], 2, 2).expect("four cells");
    assert!(all_fill.iter().all(|t| t.color == transparent()));
}

#[test]
fn tiles_need_one_value_for_each_cell() {
    assert_eq!(tiles(&vec![1, 2, 3], 2, 2), None);
    assert_eq!(tiles(&vec![1, 2, 3, 4, 5], 2, 2), None);
    assert_eq!(tiles(&vec![1], 0, 0), None);
    assert_eq!(tiles(&vec![], 0, 0), Some(vec![]));
    assert_eq!(tiles(&vec![], 0, 9), Some(vec![]));
    assert_eq!(tiles(&vec![], 9, 0), Some(vec![]));
    assert_eq!(tiles(&vec![1, 2], usize::MAX, usize::MAX), None);
}
