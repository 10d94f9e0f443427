use deferred_renderer::composite::{
    composite_params, grid_cell_at, grid_cell_center, grid_dims, CompositeMode, CompositeParams,
};

#[test]
fn mode_codes() {
    assert_eq!(CompositeMode::Composite.code(), 0);
    assert_eq!(CompositeMode::Grid.code(), 1);
}

#[test]
fn grid_of_four_layers_is_two_by_two() {
    assert_eq!(grid_dims(4), (2, 2));
}

#[test]
fn grid_shapes() {
    assert_eq!(grid_dims(1), (1, 1));
    assert_eq!(grid_dims(2), (2, 1));
    assert_eq!(grid_dims(3), (2, 2));
    assert_eq!(grid_dims(5), (3, 2));
    assert_eq!(grid_dims(9), (3, 3));
    assert_eq!(grid_dims(10), (4, 3));
}

#[test]
fn params_carry_mode_layers_and_grid() {
    assert_eq!(
        composite_params(CompositeMode::Grid, 4),
        CompositeParams { mode: 1, layers: 4, grid: [2, 2] }
    );
    assert_eq!(
        composite_params(CompositeMode::Composite, 4),
        CompositeParams { mode: 0, layers: 4, grid: [2, 2] }
    );
}

#[test]
fn cells_are_numbered_row_by_row() {
    assert_eq!(grid_cell_at(0, 0, 800, 600, 2, 2), 0);
    assert_eq!(grid_cell_at(799, 0, 800, 600, 2, 2), 1);
    assert_eq!(grid_cell_at(0, 599, 800, 600, 2, 2), 2);
    assert_eq!(grid_cell_at(799, 599, 800, 600, 2, 2), 3);
    assert_eq!(grid_cell_at(399, 299, 800, 600, 2, 2), 0);
    assert_eq!(grid_cell_at(400, 300, 800, 600, 2, 2), 3);
}

#[test]
fn cell_centers_on_800_by_600() {
    assert_eq!(grid_cell_center(0, 800, 600, 2, 2), (199, 149));
    assert_eq!(grid_cell_center(1, 800, 600, 2, 2), (599, 149));
    assert_eq!(grid_cell_center(2, 800, 600, 2, 2), (199, 449));
    assert_eq!(grid_cell_center(3, 800, 600, 2, 2), (599, 449));
}

#[test]
fn center_of_each_cell_lies_in_that_cell() {
    for &(w, h) in &[(800u32, 600u32), (2, 2), (3, 5), (1023, 7), (5, 4)] {
        for layers in 1..=9u32 {
            let (cols, rows) = grid_dims(layers);
            if cols > w || rows > h {
                continue;
            }
            for i in 0..cols * rows {
                let (x, y) = grid_cell_center(i, w, h, cols, rows);
                assert!(x < w && y < h);
                assert_eq!(grid_cell_at(x, y, w, h, cols, rows), i);
            }
        }
    }
}
