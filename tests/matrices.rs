use runtime::math::matrices::Matrix;

#[test]
fn matrix_from_dimensions() {
    let m = Matrix::<u32>::from_dimensions(3, 3);
    assert_eq!(m.width(), 3);
    assert_eq!(m.height(), 3);
    assert_eq!(*m.get(2, 2), u32::default());
}

#[test]
fn matrix_mul() {
    let d1 = vec![1, 2, 3, 4];
    let m1 = Matrix::new(2, 2, d1);

    let d2 = vec![1, 2, 5, 6];
    let m2 = Matrix::new(2, 2, d2);

    let m3 = m1.mul(&m2);

    let aa = 1 * 1 + 2 * 5;
    let ab = 1 * 2 + 2 * 6;
    let ba = 3 * 1 + 4 * 5;
    let bb = 3 * 2 + 4 * 6;
    let multipled_d = vec![aa, ab, ba, bb];
    let expected = Matrix::new(2, 2, multipled_d);
    assert_eq!(m3, expected);
}

#[test]
fn matrix_rows_and_columns() {
    let m = Matrix::new(3, 2, vec![1u64, 2, 3, 4, 5, 6]);
    let row = m.row(1);
    assert_eq!(row.len(), 3);
    let col = m.column(2);
    assert_eq!(col.len(), 2);
    // row 1 is (4, 5, 6), column 2 is (3, 6): over the shorter, 4*3 + 5*6
    assert_eq!(row.dot_product(&col), 42);
    assert_eq!(*m.get(0, 1), 4);
    assert_eq!(*m.get(2, 0), 3);
}

#[test]
fn matrix_mul_takes_smaller_dimensions() {
    let a = Matrix::new(3, 2, vec![1i64, 2, 3, 4, 5, 6]);
    let b = Matrix::new(2, 3, vec![7i64, 8, 9, 10, 11, 12]);
    let c = a.mul(&b);
    assert_eq!(c.width(), 2);
    assert_eq!(c.height(), 2);
    // cell (x, y): row y of a against column x of b, over min(3, 3) terms
    assert_eq!(*c.get(0, 0), 1 * 7 + 2 * 9 + 3 * 11);
    assert_eq!(*c.get(1, 0), 1 * 8 + 2 * 10 + 3 * 12);
    assert_eq!(*c.get(0, 1), 4 * 7 + 5 * 9 + 6 * 11);
    assert_eq!(*c.get(1, 1), 4 * 8 + 5 * 10 + 6 * 12);
}

#[test]
fn matrix_zero_sized() {
    let m = Matrix::<i32>::from_dimensions(0, 4);
    assert_eq!(m.width(), 0);
    assert_eq!(m.height(), 4);
    let p = m.mul(&m);
    assert_eq!(p.width(), 0);
    assert_eq!(p.height(), 4);
}
