//! Dense matrices stored row by row, and the vectors of their rows and columns.
use vstd::prelude::*;

verus! {

/// An integer type that matrix arithmetic can run on.
pub trait Scalar: Copy {
    /// The integer this value stands for.
    spec fn value(&self) -> int;

    /// `v` can be held by this type.
    spec fn in_range(v: int) -> bool;

    fn zero() -> (r: Self)
        ensures
            r.value() == 0,
    ;

    fn plus(&self, other: &Self) -> (r: Self)
        requires
            Self::in_range(self.value() + other.value()),
        ensures
            r.value() == self.value() + other.value(),
    ;

    fn times(&self, other: &Self) -> (r: Self)
        requires
            Self::in_range(self.value() * other.value()),
        ensures
            r.value() == self.value() * other.value(),
    ;
}

impl Scalar for u32 {
    open spec fn value(&self) -> int {
        *self as int
    }

    open spec fn in_range(v: int) -> bool {
        0 <= v <= u32::MAX
    }

    fn zero() -> (r: u32) {
        0
    }

    fn plus(&self, other: &u32) -> (r: u32) {
        *self + *other
    }

    fn times(&self, other: &u32) -> (r: u32) {
        *self * *other
    }
}

impl Scalar for i32 {
    open spec fn value(&self) -> int {
        *self as int
    }

    open spec fn in_range(v: int) -> bool {
        i32::MIN <= v <= i32::MAX
    }

    fn zero() -> (r: i32) {
        0
    }

    fn plus(&self, other: &i32) -> (r: i32) {
        *self + *other
    }

    fn times(&self, other: &i32) -> (r: i32) {
        *self * *other
    }
}

impl Scalar for u64 {
    open spec fn value(&self) -> int {
        *self as int
    }

    open spec fn in_range(v: int) -> bool {
        0 <= v <= u64::MAX
    }

    fn zero() -> (r: u64) {
        0
    }

    fn plus(&self, other: &u64) -> (r: u64) {
        *self + *other
    }

    fn times(&self, other: &u64) -> (r: u64) {
        *self * *other
    }
}

impl Scalar for i64 {
    open spec fn value(&self) -> int {
        *self as int
    }

    open spec fn in_range(v: int) -> bool {
        i64::MIN <= v <= i64::MAX
    }

    fn zero() -> (r: i64) {
        0
    }

    fn plus(&self, other: &i64) -> (r: i64) {
        *self + *other
    }

    fn times(&self, other: &i64) -> (r: i64) {
        *self * *other
    }
}

/// The sum of `a[i] * b[i]` over `i < n`.
pub open spec fn dot_prefix<T: Scalar>(a: Seq<T>, b: Seq<T>, n: nat) -> int
    decreases n,
{
    if n == 0 {
        0
    } else {
        dot_prefix(a, b, (n - 1) as nat) + a[n - 1].value() * b[n - 1].value()
    }
}

/// Every product and every partial sum of the dot product of the first `n`
/// elements of `a` and `b` can be held by `T`.
pub open spec fn dot_fits<T: Scalar>(a: Seq<T>, b: Seq<T>, n: nat) -> bool {
    &&& forall|k: nat| k <= n ==> T::in_range(#[trigger] dot_prefix(a, b, k))
    &&& forall|k: int| 0 <= k < n ==> T::in_range(#[trigger] a[k].value() * b[k].value())
}

/// Row `y` of a `w`-wide matrix stored row by row in `cells`.
pub open spec fn row_of<T>(cells: Seq<T>, w: int, y: int) -> Seq<T> {
    Seq::new(w as nat, |k: int| cells[y * w + k])
}

/// Column `x` of a `w`-wide, `h`-high matrix stored row by row in `cells`.
pub open spec fn column_of<T>(cells: Seq<T>, w: int, h: int, x: int) -> Seq<T> {
    Seq::new(h as nat, |k: int| cells[k * w + x])
}

proof fn lemma_cell_index(w: int, h: int, x: int, y: int)
    requires
        0 <= x < w,
        0 <= y < h,
    ensures
        0 <= y * w + x < w * h,
        0 <= y * w,
{
    assert(0 <= y * w + x < w * h) by (nonlinear_arith)
        requires 0 <= x < w, 0 <= y < h;
    assert(0 <= y * w) by (nonlinear_arith)
        requires 0 <= w, 0 <= y;
}

proof fn lemma_cell_unique(w: int, x1: int, y1: int, x2: int, y2: int)
    requires
        0 <= x1 < w,
        0 <= x2 < w,
        0 <= y1,
        0 <= y2,
        y1 * w + x1 == y2 * w + x2,
    ensures
        x1 == x2,
        y1 == y2,
{
    assert(y1 == y2) by (nonlinear_arith)
        requires 0 <= x1 < w, 0 <= x2 < w, 0 <= y1, 0 <= y2, y1 * w + x1 == y2 * w + x2;
}

/// Cell `(x, y)` of the product of `a` and `b`: the dot product of row `y` of
/// `a` and column `x` of `b`, over the shorter of the two.
pub open spec fn product_cell<T: Scalar>(a: &Matrix<T>, b: &Matrix<T>, x: int, y: int) -> int {
    dot_prefix(
        row_of(a.cells(), a.spec_width(), y),
        column_of(b.cells(), b.spec_width(), b.spec_height(), x),
        vstd::math::min(a.spec_width(), b.spec_height()) as nat,
    )
}

/// No cell of the product of `a` and `b` overflows `T` on the way.
pub open spec fn product_fits<T: Scalar>(a: &Matrix<T>, b: &Matrix<T>) -> bool {
    forall|x: int, y: int|
        0 <= x < vstd::math::min(a.spec_width(), b.spec_width()) && 0 <= y < vstd::math::min(
            a.spec_height(),
            b.spec_height(),
        ) ==> #[trigger] dot_fits(
            row_of(a.cells(), a.spec_width(), y),
            column_of(b.cells(), b.spec_width(), b.spec_height(), x),
            vstd::math::min(a.spec_width(), b.spec_height()) as nat,
        )
}

/// A matrix of `width` columns and `height` rows.
#[derive(PartialEq, Debug)]
pub struct Matrix<T> {
    height: usize,
    width: usize,
    data: Vec<T>,
}

/// A row or a column of a matrix.
#[derive(Debug)]
pub struct Vector<T> {
    length: usize,
    data: Vec<T>,
}

impl<T> Vector<T> {
    #[verifier::type_invariant]
    spec fn inv(&self) -> bool {
        self.length == self.data.len()
    }

    /// The elements, in order.
    pub closed spec fn elements(&self) -> Seq<T> {
        self.data@
    }

    pub fn len(&self) -> (r: usize)
        ensures
            r == self.elements().len(),
    {
        proof {
            use_type_invariant(self);
        }
        self.length
    }
}

impl<T: Scalar> Vector<T> {
    /// The dot product over the length of the shorter vector.
    pub fn dot_product(&self, other: &Vector<T>) -> (r: T)
        requires
            dot_fits(
                self.elements(),
                other.elements(),
                vstd::math::min(self.elements().len() as int, other.elements().len() as int) as nat,
            ),
        ensures
            r.value() == dot_prefix(
                self.elements(),
                other.elements(),
                vstd::math::min(self.elements().len() as int, other.elements().len() as int) as nat,
            ),
    {
        let length = if self.len() < other.len() {
            self.len()
        } else {
            other.len()
        };
        let ghost (a, b) = (self.elements(), other.elements());
        let mut acc = T::zero();
        let mut i: usize = 0;
        assert(dot_prefix(a, b, 0) == 0);
        while i < length
            invariant
                0 <= i <= length,
                length <= a.len(),
                length <= b.len(),
                a == self.data@,
                b == other.data@,
                dot_fits(a, b, length as nat),
                acc.value() == dot_prefix(a, b, i as nat),
            decreases length - i,
        {
            let p = self.data[i].times(&other.data[i]);
            assert(T::in_range(dot_prefix(a, b, (i + 1) as nat)));
            acc = acc.plus(&p);
            i += 1;
        }
        acc
    }
}

impl<T> Matrix<T> {
    #[verifier::type_invariant]
    spec fn inv(&self) -> bool {
        self.width * self.height == self.data.len()
    }

    /// The cells, row by row.
    pub closed spec fn cells(&self) -> Seq<T> {
        self.data@
    }

    pub closed spec fn spec_width(&self) -> int {
        self.width as int
    }

    pub closed spec fn spec_height(&self) -> int {
        self.height as int
    }

    pub fn width(&self) -> (r: usize)
        ensures
            r == self.spec_width(),
    {
        self.width
    }

    pub fn height(&self) -> (r: usize)
        ensures
            r == self.spec_height(),
    {
        self.height
    }

    /// A matrix whose rows are the consecutive runs of `width` cells of `data`.
    pub fn new(width: usize, height: usize, data: Vec<T>) -> (r: Matrix<T>)
        requires
            width * height == data@.len(),
        ensures
            r.spec_width() == width,
            r.spec_height() == height,
            r.cells() == data@,
    {
        Matrix { data, width, height }
    }

    /// The cell in column `x` of row `y`.
    pub fn get(&self, x: usize, y: usize) -> (r: &T)
        requires
            x < self.spec_width(),
            y < self.spec_height(),
        ensures
            *r == self.cells()[y * self.spec_width() + x],
    {
        proof {
            use_type_invariant(self);
            lemma_cell_index(self.width as int, self.height as int, x as int, y as int);
        }
        &self.data[y * self.width + x]
    }
}

impl<T: Copy> Matrix<T> {
    /// Column `x`, top to bottom.
    pub fn column(&self, x: usize) -> (r: Vector<T>)
        requires
            x < self.spec_width(),
        ensures
            r.elements() == column_of(self.cells(), self.spec_width(), self.spec_height(), x as int),
    {
        proof {
            use_type_invariant(self);
        }
        let mut data: Vec<T> = Vec::new();
        let mut y: usize = 0;
        while y < self.height
            invariant
                0 <= y <= self.height,
                x < self.width,
                self.width * self.height == self.data.len(),
                data@ == column_of(self.data@, self.width as int, self.height as int, x as int).take(
                    y as int,
                ),
            decreases self.height - y,
        {
            proof {
                lemma_cell_index(self.width as int, self.height as int, x as int, y as int);
            }
            data.push(self.data[y * self.width + x]);
            y += 1;
            assert(data@ =~= column_of(self.data@, self.width as int, self.height as int, x as int).take(
                y as int,
            ));
        }
        assert(data@ =~= column_of(self.data@, self.width as int, self.height as int, x as int));
        Vector { length: self.height, data }
    }

    /// Row `y`, left to right.
    pub fn row(&self, y: usize) -> (r: Vector<T>)
        requires
            y < self.spec_height(),
        ensures
            r.elements() == row_of(self.cells(), self.spec_width(), y as int),
    {
        proof {
            use_type_invariant(self);
        }
        let mut data: Vec<T> = Vec::new();
        let mut x: usize = 0;
        while x < self.width
            invariant
                0 <= x <= self.width,
                y < self.height,
                self.width * self.height == self.data.len(),
                data@ == row_of(self.data@, self.width as int, y as int).take(x as int),
            decreases self.width - x,
        {
            proof {
                lemma_cell_index(self.width as int, self.height as int, x as int, y as int);
            }
            data.push(self.data[y * self.width + x]);
            x += 1;
            assert(data@ =~= row_of(self.data@, self.width as int, y as int).take(x as int));
        }
        assert(data@ =~= row_of(self.data@, self.width as int, y as int));
        Vector { length: self.width, data }
    }
}

impl<T: Scalar> Matrix<T> {
    /// A `width` by `height` matrix of zeros.
    pub fn from_dimensions(width: usize, height: usize) -> (r: Matrix<T>)
        requires
            width * height <= usize::MAX,
        ensures
            r.spec_width() == width,
            r.spec_height() == height,
            r.cells().len() == width * height,
            forall|i: int| 0 <= i < r.cells().len() ==> (#[trigger] r.cells()[i]).value() == 0,
    {
        let n = width * height;
        let mut data: Vec<T> = Vec::new();
        let mut i: usize = 0;
        while i < n
            invariant
                0 <= i <= n,
                data@.len() == i,
                forall|k: int| 0 <= k < i ==> (#[trigger] data@[k]).value() == 0,
            decreases n - i,
        {
            data.push(T::zero());
            i += 1;
        }
        Matrix::new(width, height, data)
    }

    /// The product of `self` and `other`, as wide as the narrower of the two and
    /// as high as the lower; cell `(x, y)` is the dot product of row `y` of
    /// `self` and column `x` of `other`.
    pub fn mul(&self, other: &Matrix<T>) -> (r: Matrix<T>)
        requires
            product_fits(self, other),
        ensures
            r.spec_width() == vstd::math::min(self.spec_width(), other.spec_width()),
            r.spec_height() == vstd::math::min(self.spec_height(), other.spec_height()),
            forall|x: int, y: int|
                0 <= x < r.spec_width() && 0 <= y < r.spec_height() ==> (#[trigger] r.cells()[y
                    * r.spec_width() + x]).value() == product_cell(self, other, x, y),
    {
        proof {
            use_type_invariant(self);
            use_type_invariant(other);
        }
        let width = if self.width < other.width {
            self.width
        } else {
            other.width
        };
        let height = if self.height < other.height {
            self.height
        } else {
            other.height
        };
        proof {
            assert(width * height <= self.width * self.height) by (nonlinear_arith)
                requires width <= self.width, height <= self.height;
        }
        let mut data: Vec<T> = Vec::new();
        let mut y: usize = 0;
        while y < height
            invariant
                0 <= y <= height,
                width == vstd::math::min(self.spec_width(), other.spec_width()),
                height == vstd::math::min(self.spec_height(), other.spec_height()),
                width * height <= usize::MAX,
                self.width * self.height == self.data.len(),
                other.width * other.height == other.data.len(),
                product_fits(self, other),
                data@.len() == y * width,
                forall|xx: int, yy: int|
                    0 <= xx < width && 0 <= yy < height && yy * width + xx < data@.len() ==> (
                    #[trigger] data@[yy * width + xx]).value() == product_cell(self, other, xx, yy),
            decreases height - y,
        {
            let mut x: usize = 0;
            while x < width
                invariant
                    0 <= x <= width,
                    0 <= y < height,
                    width == vstd::math::min(self.spec_width(), other.spec_width()),
                    height == vstd::math::min(self.spec_height(), other.spec_height()),
                    width * height <= usize::MAX,
                    self.width * self.height == self.data.len(),
                    other.width * other.height == other.data.len(),
                    product_fits(self, other),
                    data@.len() == y * width + x,
                    forall|xx: int, yy: int|
                        0 <= xx < width && 0 <= yy < height && yy * width + xx < data@.len() ==> (
                        #[trigger] data@[yy * width + xx]).value() == product_cell(
                            self,
                            other,
                            xx,
                            yy,
                        ),
                decreases width - x,
            {
                let row = self.row(y);
                let col = other.column(x);
                assert(dot_fits(
                    row_of(self.cells(), self.spec_width(), y as int),
                    column_of(other.cells(), other.spec_width(), other.spec_height(), x as int),
                    vstd::math::min(self.spec_width(), other.spec_height()) as nat,
                ));
                let v = row.dot_product(&col);
                let ghost before = data@;
                proof {
                    lemma_cell_index(width as int, height as int, x as int, y as int);
                }
                data.push(v);
                proof {
                    assert forall|xx: int, yy: int|
                        0 <= xx < width && 0 <= yy < height && yy * width + xx < data@.len() implies (
                        #[trigger] data@[yy * width + xx]).value() == product_cell(
                            self,
                            other,
                            xx,
                            yy,
                        ) by {
                        if yy * width + xx == before.len() {
                            lemma_cell_unique(width as int, xx, yy, x as int, y as int);
                        } else {
                            assert(data@[yy * width + xx] == before[yy * width + xx]);
                        }
                    }
                }
                x += 1;
            }
            proof {
                assert(y * width + width == (y + 1) * width) by (nonlinear_arith);
            }
            y += 1;
        }
        proof {
            assert(height * width == width * height) by (nonlinear_arith);
            assert forall|x: int, y: int| 0 <= x < width && 0 <= y < height implies (
            #[trigger] data@[y * width + x]).value() == product_cell(self, other, x, y) by {
                lemma_cell_index(width as int, height as int, x, y);
            }
        }
        Matrix { width, height, data }
    }
}

} // verus!
