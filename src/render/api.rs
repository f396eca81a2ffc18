//! The rendering capability interface.
//!
//! A `RenderAPI` is a type-safe facade over one rendering context: buffer
//! lifecycle, shader symbol lookup and the draw, clear, blend and viewport
//! operations. Its model is the sequence of calls it has issued to the context
//! (`calls`) and the symbols of its linked program (`attribute_index`,
//! `uniform_index`); each operation states how it extends the sequence.
use vstd::prelude::*;
use vstd::string::StringExecFns;
use super::constants::{
    BlendFuncFactor, BufferKind, ClearMask, DrawArrayKind, DrawKind, HasBufferKind,
    ViewPrecision, gl_buffer_kind,
};
use super::data::TypedView;

verus! {

/// A shader attribute named by the program's own enum rather than a string.
pub trait AttributeKey {
    spec fn key_name(&self) -> Seq<char>;

    fn name(&self) -> (r: &str)
        ensures
            r@ == self.key_name(),
    ;
}

/// A shader uniform named by the program's own enum rather than a string.
pub trait UniformKey {
    spec fn key_name(&self) -> Seq<char>;

    fn name(&self) -> (r: &str)
        ensures
            r@ == self.key_name(),
    ;
}

/// An attribute given either by key, looked up in the program on use, or by an
/// index resolved before.
pub enum AttributeRef<K> {
    Key(K),
    Index(u32),
}

/// A uniform given either by key, looked up in the program on use, or by a
/// location resolved before.
pub enum UniformRef<K, L> {
    Key(K),
    Location(L),
}

/// An RGBA colour, one byte per channel (255 is full intensity).
#[derive(Clone, Copy, Debug, PartialEq, Eq, Structural)]
pub struct Rgba {
    pub red: u8,
    pub green: u8,
    pub blue: u8,
    pub alpha: u8,
}

/// One call issued to a rendering context. `L` is the context's uniform location.
pub enum Call<L> {
    CreateBuffer(BufferKind),
    BindBuffer {
        target: u32,
        usage: DrawKind,
        precision: ViewPrecision,
        scale: i128,
        data: Vec<i128>,
    },
    BlendColor(Rgba),
    BlendFunc(BlendFuncFactor, BlendFuncFactor),
    ClearColor(Rgba),
    Clear(ClearMask),
    DrawArrays(DrawArrayKind, i32, i32),
    EnableVertexAttribArray(u32),
    SetViewport(i32, i32, i32, i32),
    Uniform2f(L, i32, i32),
    VertexAttribPointer {
        index: u32,
        size: i32,
        precision: ViewPrecision,
        normalized: bool,
        stride: i32,
        offset: i32,
    },
}

/// `c` uploads `data` over `scale` in `precision` to the buffer bound at `target`.
pub open spec fn is_bind<L>(
    c: Call<L>,
    target: u32,
    usage: DrawKind,
    precision: ViewPrecision,
    scale: i128,
    data: Seq<i128>,
) -> bool {
    match c {
        Call::BindBuffer { target: t, usage: u, precision: p, scale: s, data: d } => {
            t == target && u == usage && p == precision && s == scale && d@ == data
        },
        _ => false,
    }
}

/// Failure of an operation of the interface.
pub enum RenderApiError {
    FailedToCreateBuffer,
    InvalidAttributeName(String),
    InvalidUniformName(String),
}

/// `r` is the failure to find the attribute `name`.
pub open spec fn is_missing_attribute<T>(r: Result<T, RenderApiError>, name: Seq<char>) -> bool {
    r matches Err(RenderApiError::InvalidAttributeName(s)) && s@ == name
}

/// `r` is the failure to find the uniform `name`.
pub open spec fn is_missing_uniform<T>(r: Result<T, RenderApiError>, name: Seq<char>) -> bool {
    r matches Err(RenderApiError::InvalidUniformName(s)) && s@ == name
}

impl RenderApiError {
    /// The text that describes the failure.
    pub open spec fn message(&self) -> Seq<char> {
        match self {
            RenderApiError::FailedToCreateBuffer => "Failed to create buffer"@,
            RenderApiError::InvalidAttributeName(s) => "Invalid attribute name, "@ + s@,
            RenderApiError::InvalidUniformName(s) => "Invalid uniform name, "@ + s@,
        }
    }

    pub fn to_string(&self) -> (r: String)
        ensures
            r@ == self.message(),
    {
        match self {
            RenderApiError::FailedToCreateBuffer => "Failed to create buffer".to_owned(),
            RenderApiError::InvalidAttributeName(s) => "Invalid attribute name, ".to_owned().concat(
                s.as_str(),
            ),
            RenderApiError::InvalidUniformName(s) => "Invalid uniform name, ".to_owned().concat(
                s.as_str(),
            ),
        }
    }
}

/// The capabilities of one rendering context with one linked program.
pub trait RenderAPI: Sized {
    type Buffer: HasBufferKind;

    type UniformIndex;

    /// The calls issued to the context so far, oldest first.
    spec fn calls(&self) -> Seq<Call<Self::UniformIndex>>;

    /// The attributes that the linked program declares, by name, with their index.
    spec fn attributes(&self) -> Map<Seq<char>, u32>;

    /// The uniforms that the linked program declares, by name, with their location.
    spec fn uniforms(&self) -> Map<Seq<char>, Self::UniformIndex>;

    /// The context grants every buffer it is asked for.
    spec fn grants_buffers(&self) -> bool;

    /// Binds `buffer` and uploads the whole of `view` into it.
    fn bind_buffer<V: TypedView>(&mut self, buffer: &Self::Buffer, view: &V, draw_kind: DrawKind)
        ensures
            final(self).attributes() == old(self).attributes(),
            final(self).uniforms() == old(self).uniforms(),
            final(self).grants_buffers() == old(self).grants_buffers(),
            final(self).calls().len() == old(self).calls().len() + 1,
            final(self).calls().drop_last() == old(self).calls(),
            is_bind(
                final(self).calls().last(),
                buffer.buffer_kind_constant_spec(),
                draw_kind,
                view.precision(),
                view.scale_spec(),
                view.values(),
            ),
    ;

    fn blend_color(&mut self, color: Rgba)
        ensures
            final(self).attributes() == old(self).attributes(),
            final(self).uniforms() == old(self).uniforms(),
            final(self).grants_buffers() == old(self).grants_buffers(),
            final(self).calls() == old(self).calls().push(Call::BlendColor(color)),
    ;

    fn blend_func(&mut self, src: BlendFuncFactor, dst: BlendFuncFactor)
        ensures
            final(self).attributes() == old(self).attributes(),
            final(self).uniforms() == old(self).uniforms(),
            final(self).grants_buffers() == old(self).grants_buffers(),
            final(self).calls() == old(self).calls().push(Call::BlendFunc(src, dst)),
    ;

    fn clear_color(&mut self, color: Rgba)
        ensures
            final(self).attributes() == old(self).attributes(),
            final(self).uniforms() == old(self).uniforms(),
            final(self).grants_buffers() == old(self).grants_buffers(),
            final(self).calls() == old(self).calls().push(Call::ClearColor(color)),
    ;

    fn clear(&mut self, mask: ClearMask)
        ensures
            final(self).attributes() == old(self).attributes(),
            final(self).uniforms() == old(self).uniforms(),
            final(self).grants_buffers() == old(self).grants_buffers(),
            final(self).calls() == old(self).calls().push(Call::Clear(mask)),
    ;

    /// Asks the context for a new buffer; the context may refuse.
    fn create_buffer(&mut self, kind: BufferKind) -> (r: Result<Self::Buffer, RenderApiError>)
        ensures
            final(self).attributes() == old(self).attributes(),
            final(self).uniforms() == old(self).uniforms(),
            final(self).grants_buffers() == old(self).grants_buffers(),
            match r {
                Ok(b) => {
                    &&& b.buffer_kind_constant_spec() == gl_buffer_kind(kind)
                    &&& final(self).calls() == old(self).calls().push(Call::CreateBuffer(kind))
                },
                Err(e) => {
                    &&& e is FailedToCreateBuffer
                    &&& !old(self).grants_buffers()
                    &&& final(self).calls() == old(self).calls()
                },
            },
    ;

    fn draw_arrays(&mut self, mode: DrawArrayKind, first: i32, count: i32)
        ensures
            final(self).attributes() == old(self).attributes(),
            final(self).uniforms() == old(self).uniforms(),
            final(self).grants_buffers() == old(self).grants_buffers(),
            final(self).calls() == old(self).calls().push(Call::DrawArrays(mode, first, count)),
    ;

    fn enable_vertex_attrib_array<K: AttributeKey>(&mut self, key: AttributeRef<K>) -> (r: Result<
        (),
        RenderApiError,
    >)
        ensures
            final(self).attributes() == old(self).attributes(),
            final(self).uniforms() == old(self).uniforms(),
            final(self).grants_buffers() == old(self).grants_buffers(),
            match attribute_lookup(old(self).attributes(), key) {
                Some(i) => {
                    &&& r is Ok
                    &&& final(self).calls() == old(self).calls().push(
                        Call::EnableVertexAttribArray(i),
                    )
                },
                None => {
                    &&& is_missing_attribute(r, attribute_name(key))
                    &&& final(self).calls() == old(self).calls()
                },
            },
    ;

    /// Looks the attribute up in the program.
    fn get_attribute<K: AttributeKey>(&self, key: &K) -> (r: Result<u32, RenderApiError>)
        ensures
            match attribute_lookup(self.attributes(), AttributeRef::Key(*key)) {
                Some(i) => r == Ok::<u32, RenderApiError>(i),
                None => is_missing_attribute(r, key.key_name()),
            },
    ;

    /// Looks the uniform up in the program.
    fn get_uniform<K: UniformKey>(&self, key: &K) -> (r: Result<Self::UniformIndex, RenderApiError>)
        ensures
            match uniform_lookup(self.uniforms(), UniformRef::<K, Self::UniformIndex>::Key(*key)) {
                Some(l) => r == Ok::<Self::UniformIndex, RenderApiError>(l),
                None => is_missing_uniform(r, key.key_name()),
            },
    ;

    fn set_viewport(&mut self, x: i32, y: i32, width: i32, height: i32)
        ensures
            final(self).attributes() == old(self).attributes(),
            final(self).uniforms() == old(self).uniforms(),
            final(self).grants_buffers() == old(self).grants_buffers(),
            final(self).calls() == old(self).calls().push(Call::SetViewport(x, y, width, height)),
    ;

    /// Sets a two-component uniform to `(x, y)`.
    fn uniform2f<K: UniformKey>(&mut self, key: UniformRef<K, Self::UniformIndex>, x: i32, y: i32) -> (r:
        Result<(), RenderApiError>)
        ensures
            final(self).attributes() == old(self).attributes(),
            final(self).uniforms() == old(self).uniforms(),
            final(self).grants_buffers() == old(self).grants_buffers(),
            match uniform_lookup(old(self).uniforms(), key) {
                Some(l) => {
                    &&& r is Ok
                    &&& final(self).calls() == old(self).calls().push(Call::Uniform2f(l, x, y))
                },
                None => {
                    &&& is_missing_uniform(r, uniform_name(key))
                    &&& final(self).calls() == old(self).calls()
                },
            },
    ;

    /// Describes the layout of an attribute in the bound array buffer.
    fn vertex_attrib_pointer_with_i32<K: AttributeKey>(
        &mut self,
        key: AttributeRef<K>,
        size: i32,
        precision: ViewPrecision,
        normalized: bool,
        stride: i32,
        offset: i32,
    ) -> (r: Result<(), RenderApiError>)
        ensures
            final(self).attributes() == old(self).attributes(),
            final(self).uniforms() == old(self).uniforms(),
            final(self).grants_buffers() == old(self).grants_buffers(),
            match attribute_lookup(old(self).attributes(), key) {
                Some(index) => {
                    &&& r is Ok
                    &&& final(self).calls() == old(self).calls().push(
                        Call::VertexAttribPointer {
                            index,
                            size,
                            precision,
                            normalized,
                            stride,
                            offset,
                        },
                    )
                },
                None => {
                    &&& is_missing_attribute(r, attribute_name(key))
                    &&& final(self).calls() == old(self).calls()
                },
            },
    ;
}

/// The index an attribute reference resolves to against `attributes`, if any.
pub open spec fn attribute_lookup<K: AttributeKey>(attributes: Map<Seq<char>, u32>, key: AttributeRef<K>) -> Option<u32> {
    match key {
        AttributeRef::Key(k) => if attributes.contains_key(k.key_name()) {
            Some(attributes[k.key_name()])
        } else {
            None
        },
        AttributeRef::Index(i) => Some(i),
    }
}

/// The name an attribute reference looks up (empty for a resolved index).
pub open spec fn attribute_name<K: AttributeKey>(key: AttributeRef<K>) -> Seq<char> {
    match key {
        AttributeRef::Key(k) => k.key_name(),
        AttributeRef::Index(_) => Seq::empty(),
    }
}

/// The location a uniform reference resolves to against `uniforms`, if any.
pub open spec fn uniform_lookup<K: UniformKey, L>(uniforms: Map<Seq<char>, L>, key: UniformRef<K, L>) -> Option<L> {
    match key {
        UniformRef::Key(k) => if uniforms.contains_key(k.key_name()) {
            Some(uniforms[k.key_name()])
        } else {
            None
        },
        UniformRef::Location(l) => Some(l),
    }
}

/// The name a uniform reference looks up (empty for a resolved location).
pub open spec fn uniform_name<K: UniformKey, L>(key: UniformRef<K, L>) -> Seq<char> {
    match key {
        UniformRef::Key(k) => k.key_name(),
        UniformRef::Location(_) => Seq::empty(),
    }
}

/// Resolves an attribute reference against the program of `ctx`: a key is
/// looked up, an index is taken as it is.
pub fn resolve_attribute<R: RenderAPI, K: AttributeKey>(ctx: &R, key: AttributeRef<K>) -> (r: Result<
    u32,
    RenderApiError,
>)
    ensures
        match attribute_lookup(ctx.attributes(), key) {
            Some(i) => r == Ok::<u32, RenderApiError>(i),
            None => is_missing_attribute(r, attribute_name(key)),
        },
{
    match key {
        AttributeRef::Key(k) => ctx.get_attribute(&k),
        AttributeRef::Index(i) => Ok(i),
    }
}

/// Resolves a uniform reference against the program of `ctx`: a key is looked
/// up, a location is taken as it is.
pub fn resolve_uniform<R: RenderAPI, K: UniformKey>(
    ctx: &R,
    key: UniformRef<K, R::UniformIndex>,
) -> (r: Result<R::UniformIndex, RenderApiError>)
    ensures
        match uniform_lookup(ctx.uniforms(), key) {
            Some(l) => r == Ok::<R::UniformIndex, RenderApiError>(l),
            None => is_missing_uniform(r, uniform_name(key)),
        },
{
    match key {
        UniformRef::Key(k) => ctx.get_uniform(&k),
        UniformRef::Location(l) => Ok(l),
    }
}

} // verus!
