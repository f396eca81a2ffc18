//! Grid geometry: a tiling of `row_count * col_count` squares, each drawn as two
//! triangles, laid out across the canvas width and centred vertically.
//!
//! Every coordinate is an exact rational number. With `r` rows all coordinates
//! share the denominator `80 * r * r`, so a grid is held as that denominator and
//! one integer numerator per coordinate. The conversion to GPU floats happens at
//! the upload boundary.
use vstd::prelude::*;

verus! {

/// The common denominator of every coordinate of a grid with `r` rows.
pub open spec fn scale_of(r: int) -> int {
    80 * r * r
}

/// Numerator of `border = (width / r) * 0.075`.
pub open spec fn border_of(w: int, r: int) -> int {
    6 * w * r
}

/// Numerator of `outer = (width - border) / r`.
pub open spec fn outer_of(w: int, r: int) -> int {
    2 * w * (40 * r - 3)
}

/// Numerator of `inner = outer - border`, the side of one drawn square.
pub open spec fn inner_of(w: int, r: int) -> int {
    outer_of(w, r) - border_of(w, r)
}

/// Numerator of `height_offset = height / 2 - (c * outer) / 2`.
pub open spec fn height_offset_of(w: int, h: int, r: int, c: int) -> int {
    40 * r * r * h - c * w * (40 * r - 3)
}

/// Numerator of the x offset of the squares of row `row`.
pub open spec fn row_offset_of(w: int, r: int, row: int) -> int {
    row * outer_of(w, r) + border_of(w, r)
}

/// Numerator of the y offset of the squares of column `col`.
pub open spec fn col_offset_of(w: int, h: int, r: int, c: int, col: int) -> int {
    col * outer_of(w, r) + border_of(w, r) + height_offset_of(w, h, r, c)
}

/// The 18 coordinates of one square with corner `(x, y)` and side `i`: the
/// forward triangle, then the mirrored one that fills the other diagonal half.
pub open spec fn square_of(x: int, y: int, i: int) -> Seq<int> {
    seq![
        x, y, 0, x + i, y, 0, x, y + i, 0,
        x + i, y + i, 0, x, y + i, 0, x + i, y, 0,
    ]
}

/// The squares of row `row`, columns `0..n`, in order.
pub open spec fn row_squares(w: int, h: int, r: int, c: int, row: int, n: nat) -> Seq<int>
    decreases n,
{
    if n == 0 {
        Seq::empty()
    } else {
        row_squares(w, h, r, c, row, (n - 1) as nat) + square_of(
            row_offset_of(w, r, row),
            col_offset_of(w, h, r, c, n - 1),
            inner_of(w, r),
        )
    }
}

/// Rows `0..n` of the grid, each row's squares in column order.
pub open spec fn grid_rows(w: int, h: int, r: int, c: int, n: nat) -> Seq<int>
    decreases n,
{
    if n == 0 {
        Seq::empty()
    } else {
        grid_rows(w, h, r, c, (n - 1) as nat) + row_squares(w, h, r, c, n - 1, c as nat)
    }
}

/// The numerators of the whole grid.
pub open spec fn grid_of(w: int, h: int, r: int, c: int) -> Seq<int> {
    grid_rows(w, h, r, c, r as nat)
}

/// The integers that a sequence of numerators denotes.
pub open spec fn ints(s: Seq<i128>) -> Seq<int> {
    s.map_values(|v: i128| v as int)
}

/// A grid: the numerators of its coordinates over one common denominator.
pub struct GridPoints {
    pub scale: i128,
    pub coords: Vec<i128>,
}

spec fn coord_limit() -> int {
    0x1_0000_0000_0000_0000_0000_0000_0000
}

fn push_square(v: &mut Vec<i128>, x: i128, y: i128, i: i128)
    requires
        -coord_limit() <= x <= coord_limit(),
        -coord_limit() <= y <= coord_limit(),
        -coord_limit() <= i <= coord_limit(),
    ensures
        ints(final(v)@) == ints(old(v)@) + square_of(x as int, y as int, i as int),
{
    let ghost start = v@;
    v.push(x);
    v.push(y);
    v.push(0);
    v.push(x + i);
    v.push(y);
    v.push(0);
    v.push(x);
    v.push(y + i);
    v.push(0);
    v.push(x + i);
    v.push(y + i);
    v.push(0);
    v.push(x);
    v.push(y + i);
    v.push(0);
    v.push(x + i);
    v.push(y);
    v.push(0);
    assert(ints(v@) =~= ints(start) + square_of(x as int, y as int, i as int));
}

proof fn lemma_mul_le(a: int, b: int, x: int, y: int)
    requires
        0 <= a <= x,
        0 <= b <= y,
    ensures
        0 <= a * b <= x * y,
{
    assert(0 <= a * b <= x * y) by (nonlinear_arith)
        requires 0 <= a <= x, 0 <= b <= y;
}

proof fn lemma_magnitudes(w: int, h: int, r: int, c: int, row: int, col: int)
    requires
        0 <= w < 0x8000_0000,
        0 <= h < 0x8000_0000,
        0 < r < 0x1_0000_0000,
        0 <= c < 0x1_0000_0000,
        0 <= row <= r,
        0 <= col <= c,
    ensures
        0 <= border_of(w, r) <= 0x6_0000_0000_0000_0000,
        0 <= outer_of(w, r) <= 0x50_0000_0000_0000_0000,
        0 <= inner_of(w, r) <= outer_of(w, r),
        0 <= row * outer_of(w, r) <= 0x50_0000_0000_0000_0000_0000_0000,
        0 <= col * outer_of(w, r) <= 0x50_0000_0000_0000_0000_0000_0000,
        0 <= 40 * r * r <= 0x28_0000_0000_0000_0000,
        0 <= 40 * r * r * h <= 0x14_0000_0000_0000_0000_0000_0000,
        0 <= c * w <= 0x8000_0000_0000_0000,
        0 <= c * w * (40 * r - 3) <= 0x14_0000_0000_0000_0000_0000_0000,
{
    lemma_mul_le(6 * w, r, 0x3_0000_0000, 0x1_0000_0000);
    lemma_mul_le(2 * w, 40 * r - 3, 0x1_0000_0000, 0x28_0000_0000);
    lemma_mul_le(w, r, 0x8000_0000, 0x1_0000_0000);
    lemma_mul_le(2 * w, 3, 0x1_0000_0000, 3);
    assert(6 * w * r <= 2 * w * (40 * r - 3)) by (nonlinear_arith)
        requires 0 <= w, 0 < r;
    let o = outer_of(w, r);
    lemma_mul_le(row, o, 0x1_0000_0000, 0x50_0000_0000_0000_0000);
    lemma_mul_le(col, o, 0x1_0000_0000, 0x50_0000_0000_0000_0000);
    lemma_mul_le(40 * r, r, 0x28_0000_0000, 0x1_0000_0000);
    lemma_mul_le(40 * r * r, h, 0x28_0000_0000_0000_0000, 0x8000_0000);
    lemma_mul_le(c, w, 0x1_0000_0000, 0x8000_0000);
    lemma_mul_le(c * w, 40 * r - 3, 0x8000_0000_0000_0000, 0x28_0000_0000);
}

/// Computes the grid for a canvas of `width` by `height` with `row_len` rows
/// across the width and `col_len` columns down the height.
pub fn grid_points(width: i32, height: i32, row_len: u32, col_len: u32) -> (g: GridPoints)
    requires
        width >= 0,
        height >= 0,
    ensures
        g.scale == scale_of(row_len as int),
        ints(g.coords@) == grid_of(width as int, height as int, row_len as int, col_len as int),
        g.coords@.len() == row_len * col_len * 18,
        row_len == 0 || col_len == 0 ==> g.coords@.len() == 0,
{
    proof {
        lemma_grid_len(width as int, height as int, row_len as int, col_len as int);
        lemma_mul_le(row_len as int, col_len as int, row_len as int, col_len as int);
        if row_len == 0 || col_len == 0 {
            assert(row_len * col_len == 0) by (nonlinear_arith)
                requires row_len == 0 || col_len == 0;
        }
    }
    let ghost (gw, gh, gr, gc) = (width as int, height as int, row_len as int, col_len as int);
    let w = width as i128;
    let h = height as i128;
    let r = row_len as i128;
    let c = col_len as i128;
    assert(0 <= 80 * r * r < 0x1_0000_0000_0000_0000_0000) by (nonlinear_arith)
        requires 0 <= r < 0x1_0000_0000;
    let scale = 80 * r * r;
    let mut coords: Vec<i128> = Vec::new();
    if row_len == 0 {
        assert(ints(coords@) =~= grid_of(gw, gh, gr, gc));
        return GridPoints { scale, coords };
    }
    proof {
        lemma_magnitudes(gw, gh, gr, gc, 0, 0);
    }
    let border = 6 * w * r;
    let outer = 2 * w * (40 * r - 3);
    let inner = outer - border;
    let height_offset = 40 * r * r * h - c * w * (40 * r - 3);
    let mut row: u32 = 0;
    while row < row_len
        invariant
            0 <= row <= row_len,
            w == gw, h == gh, r == gr, c == gc, row_len == gr, col_len == gc, scale == scale_of(gr),
            0 <= gw < 0x8000_0000,
            0 <= gh < 0x8000_0000,
            0 < gr < 0x1_0000_0000,
            0 <= gc < 0x1_0000_0000,
            border == border_of(gw, gr),
            outer == outer_of(gw, gr),
            inner == inner_of(gw, gr),
            height_offset == height_offset_of(gw, gh, gr, gc),
            ints(coords@) == grid_rows(gw, gh, gr, gc, row as nat),
        decreases row_len - row,
    {
        proof {
            lemma_magnitudes(gw, gh, gr, gc, row as int, 0);
        }
        let x = row as i128 * outer + border;
        let mut col: u32 = 0;
        while col < col_len
            invariant
                0 <= row < row_len,
                0 <= col <= col_len,
                w == gw, h == gh, r == gr, c == gc, row_len == gr, col_len == gc,
                0 <= gw < 0x8000_0000,
                0 <= gh < 0x8000_0000,
                0 < gr < 0x1_0000_0000,
            0 <= gc < 0x1_0000_0000,
                border == border_of(gw, gr),
                outer == outer_of(gw, gr),
                inner == inner_of(gw, gr),
                height_offset == height_offset_of(gw, gh, gr, gc),
                x == row_offset_of(gw, gr, row as int),
                ints(coords@) == grid_rows(gw, gh, gr, gc, row as nat) + row_squares(
                    gw, gh, gr, gc, row as int, col as nat),
            decreases col_len - col,
        {
            proof {
                lemma_magnitudes(gw, gh, gr, gc, row as int, col as int);
            }
            let y = col as i128 * outer + border + height_offset;
            let ghost before = coords@;
            push_square(&mut coords, x, y, inner);
            let ghost sq = square_of(x as int, y as int, inner as int);
            assert(ints(coords@) =~= grid_rows(gw, gh, gr, gc, row as nat) + (row_squares(
                gw, gh, gr, gc, row as int, col as nat) + sq));
            col += 1;
        }
        assert(grid_rows(gw, gh, gr, gc, (row + 1) as nat) == grid_rows(gw, gh, gr, gc, row as nat)
            + row_squares(gw, gh, gr, gc, row as int, gc as nat));
        row += 1;
    }
    GridPoints { scale, coords }
}

proof fn lemma_row_squares_len(w: int, h: int, r: int, c: int, row: int, n: nat)
    ensures
        row_squares(w, h, r, c, row, n).len() == 18 * n,
    decreases n,
{
    if n > 0 {
        lemma_row_squares_len(w, h, r, c, row, (n - 1) as nat);
    }
}

proof fn lemma_grid_rows_len(w: int, h: int, r: int, c: int, n: nat)
    requires
        c >= 0,
    ensures
        grid_rows(w, h, r, c, n).len() == n * c * 18,
    decreases n,
{
    if n > 0 {
        lemma_grid_rows_len(w, h, r, c, (n - 1) as nat);
        lemma_row_squares_len(w, h, r, c, n - 1, c as nat);
        let m = (n - 1) as nat;
        assert(grid_rows(w, h, r, c, n) == grid_rows(w, h, r, c, m) + row_squares(w, h, r, c, n - 1, c as nat));
        assert(m * c * 18 + 18 * c == n * c * 18) by (nonlinear_arith)
            requires m + 1 == n;
    } else {
        assert(n * c * 18 == 0) by (nonlinear_arith)
            requires n == 0;
    }
}

/// A grid of `r` rows and `c` columns has exactly `r * c * 18` coordinates:
/// six vertices of three coordinates for each square.
pub proof fn lemma_grid_len(w: int, h: int, r: int, c: int)
    requires
        r >= 0,
        c >= 0,
    ensures
        grid_of(w, h, r, c).len() == r * c * 18,
{
    lemma_grid_rows_len(w, h, r, c, r as nat);
}

/// The grid is a function of its four inputs: two grids computed from the same
/// width, height and density hold the same numerators, in the same order.
pub proof fn lemma_grid_deterministic(a: Seq<i128>, b: Seq<i128>, w: int, h: int, r: int, c: int)
    requires
        ints(a) == grid_of(w, h, r, c),
        ints(b) == grid_of(w, h, r, c),
    ensures
        a == b,
{
    assert(a.len() == ints(a).len());
    assert(b.len() == ints(b).len());
    assert forall|i: int| 0 <= i < a.len() implies a[i] == b[i] by {
        assert(ints(a)[i] == a[i] as int);
        assert(ints(b)[i] == b[i] as int);
    }
    assert(a =~= b);
}

/// Doubling the width doubles the border, the outer cell size and the inner
/// square size. The denominator depends on the row count alone, so the real
/// values double too. The vertical offset loses half of the grown grid height.
pub proof fn lemma_width_scaling(w: int, h: int, r: int, c: int)
    ensures
        border_of(2 * w, r) == 2 * border_of(w, r),
        outer_of(2 * w, r) == 2 * outer_of(w, r),
        inner_of(2 * w, r) == 2 * inner_of(w, r),
        2 * (height_offset_of(w, h, r, c) - height_offset_of(2 * w, h, r, c)) == c * outer_of(w, r),
{
    assert(6 * (2 * w) * r == 2 * (6 * w * r)) by (nonlinear_arith);
    assert(2 * (2 * w) * (40 * r - 3) == 2 * (2 * w * (40 * r - 3))) by (nonlinear_arith);
    assert(c * (2 * w) * (40 * r - 3) == 2 * (c * w * (40 * r - 3))) by (nonlinear_arith);
    assert(2 * (c * w * (40 * r - 3)) == c * (2 * w * (40 * r - 3))) by (nonlinear_arith);
}

/// The vertical offset does not change with the width when the grid has no
/// column, or when the width is zero: otherwise it moves with the grid height.
pub proof fn lemma_height_offset_width_free(w: int, h: int, r: int, c: int)
    requires
        c == 0 || w == 0,
    ensures
        height_offset_of(2 * w, h, r, c) == height_offset_of(w, h, r, c),
{
    assert(c * (2 * w) * (40 * r - 3) == 0 && c * w * (40 * r - 3) == 0) by (nonlinear_arith)
        requires c == 0 || w == 0;
}

} // verus!
