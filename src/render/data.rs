//! Typed views: the CPU-side copy of vertex data, ready for upload to a GPU
//! buffer, with the numeric precision it is uploaded in.
use vstd::prelude::*;
use crate::geometry::GridPoints;
use super::constants::{HasViewPrecision, ViewPrecision, gl_view_precision};

verus! {

/// A buffer of vertex data as its rendering context uploads it.
///
/// `values()[i] / scale()` is the `i`-th element; `precision()` is the format
/// the elements take on the GPU.
pub trait TypedView: HasViewPrecision {
    spec fn values(&self) -> Seq<i128>;

    spec fn scale_spec(&self) -> i128;

    spec fn precision(&self) -> ViewPrecision;

    fn length(&self) -> (r: usize)
        ensures
            r == self.values().len(),
    ;

    fn object(&self) -> (r: &[i128])
        ensures
            r@ == self.values(),
    ;

    fn scale(&self) -> (r: i128)
        ensures
            r == self.scale_spec(),
    ;

    fn get_precision(&self) -> (r: ViewPrecision)
        ensures
            r == self.precision(),
    ;
}

/// A view uploaded as 32-bit floats.
pub struct Float32View {
    size: usize,
    scale: i128,
    data: Vec<i128>,
}

impl Float32View {
    #[verifier::type_invariant]
    spec fn inv(&self) -> bool {
        self.size == self.data.len()
    }

    /// Wraps the numerators of `points`; the view's length is their count.
    pub fn create(points: GridPoints) -> (r: Result<Self, DataViewError>)
        ensures
            r is Ok,
            r matches Ok(v) ==> v.values() == points.coords@ && v.scale_spec() == points.scale,
    {
        let size = points.coords.len();
        Ok(Float32View { size, scale: points.scale, data: points.coords })
    }

    /// Replaces the whole contents of the view, its length included.
    pub fn update_data(&mut self, points: GridPoints) -> (r: Result<(), DataViewError>)
        ensures
            r is Ok,
            final(self).values() == points.coords@,
            final(self).scale_spec() == points.scale,
    {
        let size = points.coords.len();
        *self = Float32View { size, scale: points.scale, data: points.coords };
        Ok(())
    }
}

impl HasViewPrecision for Float32View {
    open spec fn view_precision_constant_spec(&self) -> u32 {
        gl_view_precision(ViewPrecision::Float)
    }

    fn view_precision_constant(&self) -> (r: u32) {
        self.get_precision().view_precision_constant()
    }
}

impl TypedView for Float32View {
    closed spec fn values(&self) -> Seq<i128> {
        self.data@
    }

    closed spec fn scale_spec(&self) -> i128 {
        self.scale
    }

    open spec fn precision(&self) -> ViewPrecision {
        ViewPrecision::Float
    }

    fn length(&self) -> (r: usize) {
        proof {
            use_type_invariant(self);
        }
        self.size
    }

    fn object(&self) -> (r: &[i128]) {
        self.data.as_slice()
    }

    fn scale(&self) -> (r: i128) {
        self.scale
    }

    fn get_precision(&self) -> (r: ViewPrecision) {
        ViewPrecision::Float
    }
}

/// Failure to build a view.
#[derive(Clone, Copy, Debug, PartialEq, Eq, Structural)]
pub enum DataViewError {
    FailedToCreateMemory,
}

impl DataViewError {
    pub fn to_string(&self) -> (r: String)
        ensures
            r@ == "Failed to create memory"@,
    {
        "Failed to create memory".to_owned()
    }
}

} // verus!
