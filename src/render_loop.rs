//! The render loop: it owns one GPU buffer, the typed view uploaded into it and
//! the rendering context, and sequences creation, drawing and viewport resizes.
use vstd::prelude::*;
use vstd::string::StringExecFns;
use crate::geometry::{GridPoints, grid_of, grid_points, ints, lemma_grid_len, scale_of};
use crate::render::api::{
    AttributeKey, AttributeRef, Call, RenderAPI, RenderApiError, Rgba, UniformKey, UniformRef,
    is_bind,
};
use crate::render::constants::{
    BufferKind, ClearMask, DrawArrayKind, DrawKind, HasBufferKind, ViewPrecision, gl_buffer_kind,
};
use crate::render::data::{DataViewError, Float32View, TypedView};
use crate::render::recorder::RecordingRenderAPI;

verus! {

/// Squares along the width of the canvas.
pub const ROW_COUNT: u32 = 12;

/// Squares along the height of the canvas.
pub const COL_COUNT: u32 = 3;

/// Number of coordinates of the grid the loop draws.
pub const GRID_LEN: usize = 648;

/// The colour the canvas is cleared to before each frame: opaque black.
pub open spec fn black() -> Rgba {
    Rgba { red: 0, green: 0, blue: 0, alpha: 255 }
}

/// The vertex attributes that the loop's program declares.
#[derive(Clone, Copy, Debug)]
pub enum VertexAttributes {
    Position,
}

/// The uniforms that the loop's program declares.
#[derive(Clone, Copy, Debug)]
pub enum VertexUniforms {
    Resolution,
}

impl AttributeKey for VertexAttributes {
    open spec fn key_name(&self) -> Seq<char> {
        "position"@
    }

    fn name(&self) -> (r: &str) {
        proof {
            reveal_strlit("position");
        }
        match self {
            VertexAttributes::Position => "position",
        }
    }
}

impl UniformKey for VertexUniforms {
    open spec fn key_name(&self) -> Seq<char> {
        "resolution"@
    }

    fn name(&self) -> (r: &str) {
        proof {
            reveal_strlit("resolution");
        }
        match self {
            VertexUniforms::Resolution => "resolution",
        }
    }
}

/// The grid the loop draws on a canvas of `width` by `height`.
pub fn get_view_data(width: i32, height: i32) -> (g: GridPoints)
    requires
        width >= 0,
        height >= 0,
    ensures
        g.scale == scale_of(ROW_COUNT as int),
        ints(g.coords@) == grid_of(width as int, height as int, ROW_COUNT as int, COL_COUNT as int),
        g.coords@.len() == GRID_LEN,
{
    grid_points(width, height, ROW_COUNT, COL_COUNT)
}

/// Failure of the render loop.
pub enum RenderLoopError {
    RenderApiError(RenderApiError),
    DataViewError(DataViewError),
}

impl RenderLoopError {
    pub fn to_string(&self) -> (r: String)
        ensures
            r@ == match self {
                RenderLoopError::RenderApiError(e) => "render_loop RenderApiError: "@ + e.message(),
                RenderLoopError::DataViewError(_) => "render_loop DataViewError: "@ + "Failed to create memory"@,
            },
    {
        match self {
            RenderLoopError::RenderApiError(e) => "render_loop RenderApiError: ".to_owned().concat(
                e.to_string().as_str(),
            ),
            RenderLoopError::DataViewError(e) => "render_loop DataViewError: ".to_owned().concat(
                e.to_string().as_str(),
            ),
        }
    }
}

impl From<RenderApiError> for RenderLoopError {
    fn from(error: RenderApiError) -> (r: RenderLoopError) {
        RenderLoopError::RenderApiError(error)
    }
}

impl vstd::std_specs::convert::FromSpecImpl<RenderApiError> for RenderLoopError {
    open spec fn obeys_from_spec() -> bool {
        true
    }

    open spec fn from_spec(error: RenderApiError) -> RenderLoopError {
        RenderLoopError::RenderApiError(error)
    }
}

impl From<DataViewError> for RenderLoopError {
    fn from(error: DataViewError) -> (r: RenderLoopError) {
        RenderLoopError::DataViewError(error)
    }
}

impl vstd::std_specs::convert::FromSpecImpl<DataViewError> for RenderLoopError {
    open spec fn obeys_from_spec() -> bool {
        true
    }

    open spec fn from_spec(error: DataViewError) -> RenderLoopError {
        RenderLoopError::DataViewError(error)
    }
}

/// The calls a successful creation issues, after those in `before`: create the
/// array buffer, upload the grid, lay out and enable `position`, set `resolution`.
pub open spec fn setup_calls<L>(
    before: Seq<Call<L>>,
    after: Seq<Call<L>>,
    position: u32,
    resolution: L,
    width: i32,
    height: i32,
    scale: i128,
    grid: Seq<i128>,
) -> bool {
    let n = before.len() as int;
    &&& after.len() == n + 5
    &&& after.subrange(0, n) == before
    &&& after[n] == Call::<L>::CreateBuffer(BufferKind::ArrayBuffer)
    &&& is_bind(after[n + 1], gl_buffer_kind(BufferKind::ArrayBuffer), DrawKind::StaticDraw,
        ViewPrecision::Float, scale, grid)
    &&& after[n + 2] == Call::<L>::VertexAttribPointer {
        index: position,
        size: 3,
        precision: ViewPrecision::Float,
        normalized: false,
        stride: 0,
        offset: 0,
    }
    &&& after[n + 3] == Call::<L>::EnableVertexAttribArray(position)
    &&& after[n + 4] == Call::Uniform2f(resolution, width, height)
}

/// The render loop over the context `R`.
pub struct RenderLoop<R: RenderAPI> {
    view: Float32View,
    buffer: R::Buffer,
    context: R,
}

impl<R: RenderAPI> RenderLoop<R> {
    /// The rendering context.
    pub closed spec fn api(&self) -> R {
        self.context
    }

    /// The numerators of the grid held by the view.
    pub closed spec fn grid(&self) -> Seq<i128> {
        self.view.values()
    }

    /// The denominator of the grid held by the view.
    pub closed spec fn grid_scale(&self) -> i128 {
        self.view.scale_spec()
    }

    /// The GL binding point of the loop's buffer.
    pub closed spec fn buffer_target(&self) -> u32 {
        self.buffer.buffer_kind_constant_spec()
    }

    /// The view holds a grid of the loop's density.
    pub open spec fn wf(&self) -> bool {
        self.grid().len() == GRID_LEN
    }

    /// The rendering context.
    pub fn context(&self) -> (r: &R)
        ensures
            *r == self.api(),
    {
        &self.context
    }

    /// The view uploaded into the loop's buffer.
    pub fn view(&self) -> (r: &Float32View)
        ensures
            r.values() == self.grid(),
            r.scale_spec() == self.grid_scale(),
    {
        &self.view
    }

    /// Creates the buffer, uploads the grid for `width` by `height`, sets up the
    /// `position` attribute and the `resolution` uniform. The first failure ends
    /// the creation and is returned.
    pub fn create(context: R, width: i32, height: i32) -> (r: Result<Self, RenderLoopError>)
        requires
            width >= 0,
            height >= 0,
        ensures
            match r {
                Ok(l) => {
                    &&& context.attributes().contains_key("position"@)
                    &&& context.uniforms().contains_key("resolution"@)
                    &&& l.wf()
                    &&& l.api().attributes() == context.attributes()
                    &&& l.api().uniforms() == context.uniforms()
                    &&& l.api().grants_buffers() == context.grants_buffers()
                    &&& l.buffer_target() == gl_buffer_kind(BufferKind::ArrayBuffer)
                    &&& l.grid_scale() == scale_of(ROW_COUNT as int)
                    &&& ints(l.grid()) == grid_of(
                        width as int,
                        height as int,
                        ROW_COUNT as int,
                        COL_COUNT as int,
                    )
                    &&& setup_calls(
                        context.calls(),
                        l.api().calls(),
                        context.attributes()["position"@],
                        context.uniforms()["resolution"@],
                        width,
                        height,
                        l.grid_scale(),
                        l.grid(),
                    )
                },
                Err(RenderLoopError::RenderApiError(RenderApiError::FailedToCreateBuffer)) => {
                    !context.grants_buffers()
                },
                Err(RenderLoopError::RenderApiError(RenderApiError::InvalidAttributeName(s))) => {
                    &&& s@ == "position"@
                    &&& !context.attributes().contains_key("position"@)
                },
                Err(RenderLoopError::RenderApiError(RenderApiError::InvalidUniformName(s))) => {
                    &&& s@ == "resolution"@
                    &&& context.attributes().contains_key("position"@)
                    &&& !context.uniforms().contains_key("resolution"@)
                },
                Err(RenderLoopError::DataViewError(_)) => false,
            },
            !context.attributes().contains_key("position"@) ==> r is Err,
            !context.uniforms().contains_key("resolution"@) ==> r is Err,
            context.grants_buffers() && context.attributes().contains_key("position"@)
                && context.uniforms().contains_key("resolution"@) ==> r is Ok,
    {
        proof {
            reveal_strlit("position");
            reveal_strlit("resolution");
        }
        let mut context = context;
        let ghost c0 = context.calls();
        let ghost n = c0.len() as int;
        let buffer = match context.create_buffer(BufferKind::ArrayBuffer) {
            Ok(b) => b,
            Err(e) => {
                return Err(RenderLoopError::from(e));
            },
        };
        let data = get_view_data(width, height);
        let view = match Float32View::create(data) {
            Ok(v) => v,
            Err(e) => {
                return Err(RenderLoopError::from(e));
            },
        };
        context.bind_buffer(&buffer, &view, DrawKind::StaticDraw);
        let ghost c2 = context.calls();
        let precision = view.get_precision();
        let position = VertexAttributes::Position;
        match context.vertex_attrib_pointer_with_i32(
            AttributeRef::Key(position),
            3,
            precision,
            false,
            0,
            0,
        ) {
            Ok(()) => {},
            Err(e) => {
                return Err(RenderLoopError::from(e));
            },
        }
        match context.enable_vertex_attrib_array(AttributeRef::Key(position)) {
            Ok(()) => {},
            Err(e) => {
                return Err(RenderLoopError::from(e));
            },
        }
        let resolution = VertexUniforms::Resolution;
        match context.uniform2f(UniformRef::Key(resolution), width, height) {
            Ok(()) => {},
            Err(e) => {
                return Err(RenderLoopError::from(e));
            },
        }
        let l = RenderLoop { view, buffer, context };
        proof {
            let c = l.api().calls();
            assert(c2.drop_last() == c0.push(Call::<R::UniformIndex>::CreateBuffer(BufferKind::ArrayBuffer)));
            assert(c2[n as int] == c2.drop_last()[n as int]);
            assert(c.len() == n + 5);
            assert(c[n as int] == c2[n as int]);
            assert(c[n + 1] == c2[n + 1]);
            assert forall|i: int| 0 <= i < n implies c[i] == c0[i] by {
                assert(c2.drop_last()[i] == c2[i]);
                assert(c[i] == c2[i]);
            }
            assert(c.subrange(0, n as int) =~= c0);
        }
        Ok(l)
    }

    /// Clears the canvas to opaque black and draws the grid as triangles.
    pub fn draw(&mut self)
        requires
            old(self).wf(),
        ensures
            final(self).wf(),
            final(self).grid() == old(self).grid(),
            final(self).grid_scale() == old(self).grid_scale(),
            final(self).buffer_target() == old(self).buffer_target(),
            final(self).api().attributes() == old(self).api().attributes(),
            final(self).api().uniforms() == old(self).api().uniforms(),
            final(self).api().grants_buffers() == old(self).api().grants_buffers(),
            final(self).api().calls() == old(self).api().calls() + seq![
                Call::<R::UniformIndex>::ClearColor(black()),
                Call::<R::UniformIndex>::Clear(ClearMask::ColorBufferBit),
                Call::DrawArrays(DrawArrayKind::Triangles, 0, (old(self).grid().len() / 3) as i32),
            ],
    {
        self.context.clear_color(Rgba { red: 0, green: 0, blue: 0, alpha: 255 });
        self.context.clear(ClearMask::ColorBufferBit);
        let count = (self.view.length() / 3) as i32;
        self.context.draw_arrays(DrawArrayKind::Triangles, 0, count);
        assert(self.context.calls() =~= old(self).api().calls() + seq![
            Call::<R::UniformIndex>::ClearColor(black()),
            Call::Clear(ClearMask::ColorBufferBit),
            Call::DrawArrays(DrawArrayKind::Triangles, 0, count),
        ]);
    }

    /// Sets the viewport to `width` by `height`, replaces the grid with the one
    /// for that canvas, uploads it into the same buffer and sets `resolution`.
    ///
    /// When the program lacks `resolution` the error is returned after the new
    /// grid has been uploaded: nothing is rolled back.
    pub fn update_viewport(&mut self, width: i32, height: i32) -> (r: Result<(), RenderLoopError>)
        requires
            old(self).wf(),
            width >= 0,
            height >= 0,
        ensures
            final(self).wf(),
            final(self).grid_scale() == scale_of(ROW_COUNT as int),
            ints(final(self).grid()) == grid_of(
                width as int,
                height as int,
                ROW_COUNT as int,
                COL_COUNT as int,
            ),
            final(self).buffer_target() == old(self).buffer_target(),
            final(self).api().attributes() == old(self).api().attributes(),
            final(self).api().uniforms() == old(self).api().uniforms(),
            final(self).api().grants_buffers() == old(self).api().grants_buffers(),
            ({
                let before = old(self).api().calls();
                let after = final(self).api().calls();
                let n = before.len() as int;
                &&& after.subrange(0, n) == before
                &&& after[n] == Call::<R::UniformIndex>::SetViewport(0, 0, width, height)
                &&& is_bind(after[n + 1], old(self).buffer_target(), DrawKind::StaticDraw,
                    ViewPrecision::Float, final(self).grid_scale(), final(self).grid())
                &&& if old(self).api().uniforms().contains_key("resolution"@) {
                    &&& r is Ok
                    &&& after.len() == n + 3
                    &&& after[n + 2] == Call::Uniform2f(
                        old(self).api().uniforms()["resolution"@],
                        width,
                        height,
                    )
                } else {
                    &&& r matches Err(
                        RenderLoopError::RenderApiError(RenderApiError::InvalidUniformName(s)),
                    ) && s@ == "resolution"@
                    &&& after.len() == n + 2
                }
            }),
    {
        proof {
            reveal_strlit("resolution");
        }
        let ghost c0 = self.context.calls();
        let ghost n = c0.len() as int;
        let data = get_view_data(width, height);
        self.context.set_viewport(0, 0, width, height);
        match self.view.update_data(data) {
            Ok(()) => {},
            Err(e) => {
                return Err(RenderLoopError::from(e));
            },
        }
        self.context.bind_buffer(&self.buffer, &self.view, DrawKind::StaticDraw);
        let ghost c2 = self.context.calls();
        assert(c2.drop_last() == c0.push(Call::<R::UniformIndex>::SetViewport(0, 0, width, height)));
        assert(c2[n as int] == c2.drop_last()[n as int]);
        assert(c2.subrange(0, n as int) =~= c0);
        let resolution = VertexUniforms::Resolution;
        match self.context.uniform2f(UniformRef::Key(resolution), width, height) {
            Ok(()) => {},
            Err(e) => {
                assert(self.context.calls() == c2);
                return Err(RenderLoopError::from(e));
            },
        }
        assert(self.context.calls()[n as int] == c2[n as int]);
        assert(self.context.calls()[n + 1] == c2[n + 1]);
        assert(self.context.calls().subrange(0, n as int) =~= c0);
        Ok(())
    }
}

/// A loop's grid has `ROW_COUNT * COL_COUNT` squares of six vertices, so each
/// frame draws 216 vertices: the count that `draw` hands to `draw_arrays`.
pub proof fn lemma_draw_count<R: RenderAPI>(l: RenderLoop<R>)
    requires
        l.wf(),
    ensures
        (l.grid().len() / 3) as i32 == 216,
        GRID_LEN == ROW_COUNT * COL_COUNT * 18,
{
}

impl RenderLoop<RecordingRenderAPI> {
    /// Hands out the calls the loop has issued since the last time, oldest
    /// first, for a host to perform on a real context.
    pub fn take_calls(&mut self) -> (r: Vec<Call<u32>>)
        ensures
            r@ == old(self).api().calls(),
            final(self).api().calls() == Seq::<Call<u32>>::empty(),
            final(self).api().attributes() == old(self).api().attributes(),
            final(self).api().uniforms() == old(self).api().uniforms(),
            final(self).api().grants_buffers() == old(self).api().grants_buffers(),
            final(self).grid() == old(self).grid(),
            final(self).grid_scale() == old(self).grid_scale(),
            final(self).buffer_target() == old(self).buffer_target(),
    {
        self.context.take_history()
    }
}

} // verus!
