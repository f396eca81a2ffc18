//! An in-memory rendering context: it records every call it is given and
//! answers symbol lookups from declared tables of attribute and uniform names.
//! A host replays the recorded calls on a real context; tests read them.
use vstd::prelude::*;
use super::api::{
    AttributeKey, AttributeRef, Call, RenderAPI, RenderApiError, Rgba, UniformKey, UniformRef,
};
use super::constants::{
    BlendFuncFactor, BufferKind, ClearMask, DrawArrayKind, DrawKind, HasBufferKind, ViewPrecision,
    gl_buffer_kind,
};
use super::data::TypedView;

verus! {

/// A buffer handle of the recording context.
pub struct RecordedBuffer {
    pub kind: BufferKind,
}

impl HasBufferKind for RecordedBuffer {
    open spec fn buffer_kind_constant_spec(&self) -> u32 {
        gl_buffer_kind(self.kind)
    }

    fn buffer_kind_constant(&self) -> (r: u32) {
        self.kind.buffer_kind_constant()
    }
}

/// `i` is the first position of `name` in `names`.
pub open spec fn first_position(names: Seq<(String, u32)>, name: Seq<char>, i: int) -> bool {
    &&& 0 <= i < names.len()
    &&& names[i].0@ == name
    &&& forall|k: int| 0 <= k < i ==> names[k].0@ != name
}

/// The symbol table of a list of names with their numbers: each name maps to
/// the number of its first entry.
pub open spec fn symbol_table(names: Seq<(String, u32)>) -> Map<Seq<char>, u32> {
    Map::new(
        |n: Seq<char>| exists|i: int| 0 <= i < names.len() && names[i].0@ == n,
        |n: Seq<char>| names[choose|i: int| first_position(names, n, i)].1,
    )
}

proof fn lemma_first_position_unique(names: Seq<(String, u32)>, name: Seq<char>, i: int, j: int)
    requires
        first_position(names, name, i),
        first_position(names, name, j),
    ensures
        i == j,
{
}

proof fn lemma_first_position_exists(names: Seq<(String, u32)>, name: Seq<char>, j: int)
    requires
        0 <= j < names.len(),
        names[j].0@ == name,
    ensures
        exists|i: int| first_position(names, name, i),
    decreases j,
{
    if exists|k: int| 0 <= k < j && names[k].0@ == name {
        let k = choose|k: int| 0 <= k < j && names[k].0@ == name;
        lemma_first_position_exists(names, name, k);
    } else {
        assert(first_position(names, name, j));
    }
}

/// A name that the list declares resolves, to the number of its first entry; a
/// name that it does not declare has no entry.
pub proof fn lemma_symbol_table_resolves(names: Seq<(String, u32)>, name: Seq<char>)
    ensures
        (exists|i: int| 0 <= i < names.len() && names[i].0@ == name) ==> {
            &&& symbol_table(names).contains_key(name)
            &&& exists|i: int| first_position(names, name, i) && symbol_table(names)[name] == names[i].1
        },
        !(exists|i: int| 0 <= i < names.len() && names[i].0@ == name) ==> !symbol_table(
            names,
        ).contains_key(name),
{
    if exists|i: int| 0 <= i < names.len() && names[i].0@ == name {
        let j = choose|j: int| 0 <= j < names.len() && names[j].0@ == name;
        lemma_first_position_exists(names, name, j);
        let i = choose|i: int| first_position(names, name, i);
        assert(first_position(names, name, i) && symbol_table(names)[name] == names[i].1);
    }
}

/// Finds the first position of `name` in `names`.
fn find_name(names: &Vec<(String, u32)>, name: &str) -> (r: Option<u32>)
    ensures
        match r {
            Some(i) => symbol_table(names@).contains_key(name@) && symbol_table(names@)[name@] == i,
            None => !symbol_table(names@).contains_key(name@),
        },
{
    let wanted = name.to_owned();
    let mut i: usize = 0;
    while i < names.len()
        invariant
            0 <= i <= names.len(),
            wanted@ == name@,
            forall|k: int| 0 <= k < i ==> names@[k].0@ != name@,
        decreases names.len() - i,
    {
        if names[i].0 == wanted {
            proof {
                assert(first_position(names@, name@, i as int));
                let j = choose|j: int| first_position(names@, name@, j);
                lemma_first_position_unique(names@, name@, i as int, j);
            }
            return Some(names[i].1);
        }
        i += 1;
    }
    None
}

/// Copies a slice into a new vector.
fn copy_values(s: &[i128]) -> (r: Vec<i128>)
    ensures
        r@ == s@,
{
    let mut r: Vec<i128> = Vec::new();
    let mut i: usize = 0;
    while i < s.len()
        invariant
            0 <= i <= s.len(),
            r@ == s@.subrange(0, i as int),
        decreases s.len() - i,
    {
        r.push(s[i]);
        i += 1;
        assert(r@ =~= s@.subrange(0, i as int));
    }
    assert(r@ =~= s@);
    r
}

/// An in-memory rendering context with a fixed program.
pub struct RecordingRenderAPI {
    attribute_names: Vec<(String, u32)>,
    uniform_names: Vec<(String, u32)>,
    history: Vec<Call<u32>>,
    refuse_buffers: bool,
}

impl RecordingRenderAPI {
    /// A context whose program declares the attributes `attribute_names`, each
    /// with its index, and the uniforms `uniform_names`, each with its location;
    /// where a name repeats, its first entry counts. With `refuse_buffers` every
    /// buffer creation fails.
    pub fn new(
        attribute_names: Vec<(String, u32)>,
        uniform_names: Vec<(String, u32)>,
        refuse_buffers: bool,
    ) -> (r: Self)
        ensures
            r.attributes() == symbol_table(attribute_names@),
            r.uniforms() == symbol_table(uniform_names@),
            r.calls() == Seq::<Call<u32>>::empty(),
            r.grants_buffers() == !refuse_buffers,
    {
        RecordingRenderAPI { attribute_names, uniform_names, history: Vec::new(), refuse_buffers }
    }

    /// The calls issued so far, oldest first.
    pub fn history(&self) -> (r: &Vec<Call<u32>>)
        ensures
            r@ == self.calls(),
    {
        &self.history
    }

    /// Hands out the calls issued so far and starts a new record.
    pub fn take_history(&mut self) -> (r: Vec<Call<u32>>)
        ensures
            r@ == old(self).calls(),
            final(self).calls() == Seq::<Call<u32>>::empty(),
            final(self).attributes() == old(self).attributes(),
            final(self).uniforms() == old(self).uniforms(),
            final(self).grants_buffers() == old(self).grants_buffers(),
    {
        let mut taken: Vec<Call<u32>> = Vec::new();
        std::mem::swap(&mut self.history, &mut taken);
        taken
    }
}

impl RenderAPI for RecordingRenderAPI {
    type Buffer = RecordedBuffer;

    type UniformIndex = u32;

    closed spec fn calls(&self) -> Seq<Call<u32>> {
        self.history@
    }

    closed spec fn attributes(&self) -> Map<Seq<char>, u32> {
        symbol_table(self.attribute_names@)
    }

    closed spec fn uniforms(&self) -> Map<Seq<char>, u32> {
        symbol_table(self.uniform_names@)
    }

    closed spec fn grants_buffers(&self) -> bool {
        !self.refuse_buffers
    }

    fn bind_buffer<V: TypedView>(&mut self, buffer: &RecordedBuffer, view: &V, draw_kind: DrawKind) {
        let data = copy_values(view.object());
        let call = Call::BindBuffer {
            target: buffer.buffer_kind_constant(),
            usage: draw_kind,
            precision: view.get_precision(),
            scale: view.scale(),
            data,
        };
        self.history.push(call);
        assert(self.history@.drop_last() =~= old(self).history@);
    }

    fn blend_color(&mut self, color: Rgba) {
        self.history.push(Call::BlendColor(color));
    }

    fn blend_func(&mut self, src: BlendFuncFactor, dst: BlendFuncFactor) {
        self.history.push(Call::BlendFunc(src, dst));
    }

    fn clear_color(&mut self, color: Rgba) {
        self.history.push(Call::ClearColor(color));
    }

    fn clear(&mut self, mask: ClearMask) {
        self.history.push(Call::Clear(mask));
    }

    fn create_buffer(&mut self, kind: BufferKind) -> (r: Result<RecordedBuffer, RenderApiError>) {
        if self.refuse_buffers {
            Err(RenderApiError::FailedToCreateBuffer)
        } else {
            self.history.push(Call::CreateBuffer(kind));
            Ok(RecordedBuffer { kind })
        }
    }

    fn draw_arrays(&mut self, mode: DrawArrayKind, first: i32, count: i32) {
        self.history.push(Call::DrawArrays(mode, first, count));
    }

    fn enable_vertex_attrib_array<K: AttributeKey>(&mut self, key: AttributeRef<K>) -> (r: Result<
        (),
        RenderApiError,
    >) {
        let resolved = match key {
            AttributeRef::Key(k) => self.get_attribute(&k),
            AttributeRef::Index(i) => Ok(i),
        };
        match resolved {
            Ok(index) => {
                self.history.push(Call::EnableVertexAttribArray(index));
                Ok(())
            },
            Err(e) => Err(e),
        }
    }

    fn get_attribute<K: AttributeKey>(&self, key: &K) -> (r: Result<u32, RenderApiError>) {
        let name = key.name();
        match find_name(&self.attribute_names, name) {
            Some(i) => Ok(i),
            None => Err(RenderApiError::InvalidAttributeName(name.to_owned())),
        }
    }

    fn get_uniform<K: UniformKey>(&self, key: &K) -> (r: Result<u32, RenderApiError>) {
        let name = key.name();
        match find_name(&self.uniform_names, name) {
            Some(i) => Ok(i),
            None => Err(RenderApiError::InvalidUniformName(name.to_owned())),
        }
    }

    fn set_viewport(&mut self, x: i32, y: i32, width: i32, height: i32) {
        self.history.push(Call::SetViewport(x, y, width, height));
    }

    fn uniform2f<K: UniformKey>(&mut self, key: UniformRef<K, u32>, x: i32, y: i32) -> (r: Result<
        (),
        RenderApiError,
    >) {
        let resolved = match key {
            UniformRef::Key(k) => self.get_uniform(&k),
            UniformRef::Location(l) => Ok(l),
        };
        match resolved {
            Ok(location) => {
                self.history.push(Call::Uniform2f(location, x, y));
                Ok(())
            },
            Err(e) => Err(e),
        }
    }

    fn vertex_attrib_pointer_with_i32<K: AttributeKey>(
        &mut self,
        key: AttributeRef<K>,
        size: i32,
        precision: ViewPrecision,
        normalized: bool,
        stride: i32,
        offset: i32,
    ) -> (r: Result<(), RenderApiError>) {
        let resolved = match key {
            AttributeRef::Key(k) => self.get_attribute(&k),
            AttributeRef::Index(i) => Ok(i),
        };
        match resolved {
            Ok(index) => {
                self.history.push(
                    Call::VertexAttribPointer { index, size, precision, normalized, stride, offset },
                );
                Ok(())
            },
            Err(e) => Err(e),
        }
    }
}

} // verus!
