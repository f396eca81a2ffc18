use runtime::geometry::grid_points;
use runtime::render_loop::{get_view_data, COL_COUNT, GRID_LEN, ROW_COUNT};

fn as_real(n: i128, scale: i128) -> f64 {
    n as f64 / scale as f64
}

#[test]
fn grid_has_eighteen_values_per_square() {
    for (r, c) in [(1u32, 1u32), (2, 1), (12, 3), (5, 7)] {
        let g = grid_points(300, 150, r, c);
        assert_eq!(g.coords.len(), (r * c * 18) as usize);
    }
    assert_eq!(get_view_data(300, 150).coords.len(), GRID_LEN);
    assert_eq!(GRID_LEN, (ROW_COUNT * COL_COUNT * 18) as usize);
}

#[test]
fn grid_without_rows_or_columns_is_empty() {
    assert!(grid_points(100, 60, 0, 3).coords.is_empty());
    assert!(grid_points(100, 60, 4, 0).coords.is_empty());
    assert!(grid_points(0, 0, 0, 0).coords.is_empty());
}

#[test]
fn grid_is_deterministic() {
    let a = grid_points(640, 480, 12, 3);
    let b = grid_points(640, 480, 12, 3);
    assert_eq!(a.scale, b.scale);
    assert_eq!(a.coords, b.coords);
}

#[test]
fn grid_example_values() {
    let g = grid_points(100, 60, 2, 1);
    assert_eq!(g.scale, 320);
    let border = as_real(g.coords[0], g.scale);
    let inner = as_real(g.coords[3] - g.coords[0], g.scale);
    // the second square starts one outer step further along the width
    let outer = as_real(g.coords[18] - g.coords[0], g.scale);
    let col_offset = as_real(g.coords[1], g.scale);
    let height_offset = col_offset - border;
    assert_eq!(border, 3.75);
    assert_eq!(outer, 48.125);
    assert_eq!(inner, 44.375);
    assert_eq!(height_offset, 5.9375);
    assert_eq!(as_real(g.coords[0], g.scale), 3.75);
    assert_eq!(col_offset, 9.6875);
}

#[test]
fn grid_square_layout() {
    let g = grid_points(100, 60, 2, 1);
    let (x, y, i) = (1200i128, 3100i128, 14200i128);
    let first: Vec<i128> = vec![
        x, y, 0, x + i, y, 0, x, y + i, 0,
        x + i, y + i, 0, x, y + i, 0, x + i, y, 0,
    ];
    assert_eq!(&g.coords[0..18], &first[..]);
    assert_eq!(g.coords.len(), 36);
}

#[test]
fn grid_width_scaling() {
    let a = grid_points(100, 60, 2, 1);
    let b = grid_points(200, 60, 2, 1);
    assert_eq!(a.scale, b.scale);
    // border doubles
    assert_eq!(b.coords[0], 2 * a.coords[0]);
    // inner doubles
    assert_eq!(b.coords[3] - b.coords[0], 2 * (a.coords[3] - a.coords[0]));
    // outer doubles
    assert_eq!(b.coords[18] - b.coords[0], 2 * (a.coords[18] - a.coords[0]));
    // the vertical offset moves by half the growth of the grid height
    let ho_a = a.coords[1] - a.coords[0];
    let ho_b = b.coords[1] - b.coords[0];
    let outer_a = a.coords[18] - a.coords[0];
    assert_eq!(2 * (ho_a - ho_b), outer_a);
    // with no width there is nothing to scale
    let z = grid_points(0, 60, 2, 1);
    let z2 = grid_points(0, 60, 2, 1);
    assert_eq!(z.coords[1], z2.coords[1]);
}
