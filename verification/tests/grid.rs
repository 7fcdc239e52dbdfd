use windowed_term::grid::{compute_cell_grid, handle_resize_messages, CellGrid, WindowSize};

#[test]
fn grid_translation_example() {
    let size = WindowSize { width: 800, height: 600 };
    let grid = compute_cell_grid(&size, 8, 16);
    assert_eq!(grid.cols, 100);
    assert_eq!(grid.rows, 37);
}

#[test]
fn grid_translation_rounds_down() {
    let size = WindowSize { width: 799, height: 615 };
    let grid = compute_cell_grid(&size, 8, 16);
    assert_eq!(grid.cols, 99);
    assert_eq!(grid.rows, 38);
}

#[test]
fn grid_translation_zero_pixels() {
    let size = WindowSize { width: 0, height: 0 };
    let grid = compute_cell_grid(&size, 8, 16);
    assert_eq!(grid.cols, 0);
    assert_eq!(grid.rows, 0);
}

#[test]
fn grid_translation_saturates() {
    let size = WindowSize { width: 4_000_000_000, height: 10 };
    let grid = compute_cell_grid(&size, 1, 1);
    assert_eq!(grid.cols, u16::MAX);
    assert_eq!(grid.rows, 10);
}

#[test]
fn resize_messages_last_wins() {
    let mut grid = CellGrid { cols: 80, rows: 24 };
    let messages = vec![
        WindowSize { width: 640, height: 384 },
        WindowSize { width: 320, height: 200 },
        WindowSize { width: 1000, height: 500 },
    ];
    handle_resize_messages(&mut grid, &messages, 8, 16);
    assert_eq!(grid.cols, 125);
    assert_eq!(grid.rows, 31);
}

#[test]
fn resize_messages_empty_keeps_grid() {
    let mut grid = CellGrid { cols: 80, rows: 24 };
    handle_resize_messages(&mut grid, &Vec::new(), 8, 16);
    assert_eq!(grid, CellGrid { cols: 80, rows: 24 });
}
