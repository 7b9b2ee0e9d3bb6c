use vstd::prelude::*;
use crate::vertex_array::OglVertexArray;

verus! {

/// The role a GPU buffer plays in a vertex array.
#[derive(Clone, Copy, Debug, PartialEq, Eq, Structural)]
pub enum BufferType {
    Vertex,
    Index,
}

/// The scalar type of one component of a vertex attribute or texel.
#[derive(Clone, Copy, Debug, PartialEq, Eq, Structural)]
pub enum BufferDataType {
    F32,
    F64,
    I8,
    I16,
    I32,
    U8,
    U16,
    U32,
}

/// How often the contents of a buffer are expected to change.
#[derive(Clone, Copy, Debug, PartialEq, Eq, Structural)]
pub enum BufferUsage {
    Static,
    Dynamic,
    Stream,
}

/// One vertex attribute: its component count, scalar type and whether
/// integer components are normalized when read.
#[derive(Clone, Copy, Debug, PartialEq, Eq, Structural)]
pub struct BufferLayoutNode {
    pub elements: u32,
    pub data_type: BufferDataType,
    pub normalized: bool,
}

/// Size in bytes of one scalar of the given type.
pub open spec fn type_size(t: BufferDataType) -> nat {
    match t {
        BufferDataType::F32 => 4,
        BufferDataType::F64 => 8,
        BufferDataType::I8 => 1,
        BufferDataType::I16 => 2,
        BufferDataType::I32 => 4,
        BufferDataType::U8 => 1,
        BufferDataType::U16 => 2,
        BufferDataType::U32 => 4,
    }
}

/// Byte width of one attribute.
pub open spec fn node_bytes(n: BufferLayoutNode) -> nat {
    n.elements as nat * type_size(n.data_type)
}

/// The logical width of a layout: the number of scalars in one vertex.
pub open spec fn layout_width(l: Seq<BufferLayoutNode>) -> nat
    decreases l.len(),
{
    if l.len() == 0 {
        0
    } else {
        layout_width(l.drop_last()) + l.last().elements as nat
    }
}

/// The stride of a layout: the number of bytes in one vertex.
pub open spec fn layout_stride(l: Seq<BufferLayoutNode>) -> nat
    decreases l.len(),
{
    if l.len() == 0 {
        0
    } else {
        layout_stride(l.drop_last()) + node_bytes(l.last())
    }
}

/// Number of logical elements held by `scalars` raw values of a buffer:
/// whole vertices for a vertex buffer, indices for an index buffer.
pub open spec fn element_count_of(scalars: nat, layout: Seq<BufferLayoutNode>, kind: BufferType) -> nat {
    match kind {
        BufferType::Vertex => if layout_width(layout) == 0 { 0 } else { scalars / layout_width(layout) },
        BufferType::Index => scalars,
    }
}

/// The number of scalars that a sub-data write at `byte_offset` starts past:
/// sub-data is written as 4-byte scalars.
pub open spec fn offset_in_scalars(byte_offset: nat) -> nat {
    byte_offset / 4
}

/// The scalar count that a buffer holds after a write of `len` scalars at
/// `byte_offset`: a write at offset zero replaces the whole logical content,
/// a write elsewhere extends it to the end of the written range.
pub open spec fn scalars_after_write(len: nat, byte_offset: nat) -> nat {
    if byte_offset == 0 {
        len
    } else {
        offset_in_scalars(byte_offset) + len
    }
}

impl BufferLayoutNode {
    /// The logical width of `layout`: the sum of its nodes' component counts.
    pub fn get_layout_size(layout: Vec<BufferLayoutNode>) -> (r: usize)
        requires
            layout_width(layout@) <= usize::MAX,
        ensures
            r == layout_width(layout@),
    {
        layout_width_of(&layout)
    }
}

proof fn lemma_width_prefix_bounded(l: Seq<BufferLayoutNode>, i: int)
    requires
        0 <= i <= l.len(),
    ensures
        layout_width(l.take(i)) <= layout_width(l),
    decreases l.len() - i,
{
    if i < l.len() {
        lemma_width_prefix_bounded(l, i + 1);
        assert(l.take(i + 1).drop_last() =~= l.take(i));
    } else {
        assert(l.take(i) =~= l);
    }
}

pub(crate) proof fn lemma_stride_prefix_bounded(l: Seq<BufferLayoutNode>, i: int)
    requires
        0 <= i <= l.len(),
    ensures
        layout_stride(l.take(i)) <= layout_stride(l),
    decreases l.len() - i,
{
    if i < l.len() {
        lemma_stride_prefix_bounded(l, i + 1);
        assert(l.take(i + 1).drop_last() =~= l.take(i));
    } else {
        assert(l.take(i) =~= l);
    }
}

/// The logical width of a borrowed layout.
pub fn layout_width_of(layout: &Vec<BufferLayoutNode>) -> (r: usize)
    requires
        layout_width(layout@) <= usize::MAX,
    ensures
        r == layout_width(layout@),
{
    let mut size: usize = 0;
    let mut i: usize = 0;
    while i < layout.len()
        invariant
            0 <= i <= layout@.len(),
            size == layout_width(layout@.take(i as int)),
            layout_width(layout@) <= usize::MAX,
        decreases layout@.len() - i,
    {
        proof {
            lemma_width_prefix_bounded(layout@, i + 1);
            assert(layout@.take(i + 1).drop_last() =~= layout@.take(i as int));
        }
        size = size + layout[i].elements as usize;
        i = i + 1;
    }
    proof {
        assert(layout@.take(i as int) =~= layout@);
    }
    size
}

/// The stride of a layout: the sum of each node's component count times the
/// size of its scalar type.
pub fn layout_stride_of(layout: &Vec<BufferLayoutNode>) -> (r: usize)
    requires
        layout_stride(layout@) <= usize::MAX,
    ensures
        r == layout_stride(layout@),
{
    let mut stride: usize = 0;
    let mut i: usize = 0;
    while i < layout.len()
        invariant
            0 <= i <= layout@.len(),
            stride == layout_stride(layout@.take(i as int)),
            layout_stride(layout@) <= usize::MAX,
        decreases layout@.len() - i,
    {
        proof {
            lemma_stride_prefix_bounded(layout@, i + 1);
            assert(layout@.take(i + 1).drop_last() =~= layout@.take(i as int));
        }
        let node = layout[i];
        let bytes = node.elements as usize * OglVertexArray::get_type_size(node.data_type);
        stride = stride + bytes;
        i = i + 1;
    }
    proof {
        assert(layout@.take(i as int) =~= layout@);
    }
    stride
}


/// A GPU buffer: its backend handle, its role, its usage hint, its layout
/// and the number of logical elements it holds.
pub struct OglBuffer {
    id: u32,
    buffer_type: BufferType,
    usage: BufferUsage,
    buffer_layout: Vec<BufferLayoutNode>,
    element_count: usize,
}

impl OglBuffer {
    pub closed spec fn spec_id(&self) -> u32 {
        self.id
    }

    pub closed spec fn spec_type(&self) -> BufferType {
        self.buffer_type
    }

    pub closed spec fn spec_usage(&self) -> BufferUsage {
        self.usage
    }

    pub closed spec fn spec_layout(&self) -> Seq<BufferLayoutNode> {
        self.buffer_layout@
    }

    pub closed spec fn spec_element_count(&self) -> nat {
        self.element_count as nat
    }

    /// A vertex buffer's layout has a positive logical width, and the
    /// layout's width and stride and the element count are representable.
    pub open spec fn wf(&self) -> bool {
        &&& layout_width(self.spec_layout()) <= usize::MAX
        &&& layout_stride(self.spec_layout()) <= usize::MAX
        &&& self.spec_type() == BufferType::Vertex ==> layout_width(self.spec_layout()) > 0
        &&& self.spec_element_count() <= usize::MAX
    }

    /// Describes a buffer with handle `id` whose storage was filled with
    /// `data_len` scalars.
    pub fn new(
        id: u32,
        data_len: usize,
        buffer_type: BufferType,
        buffer_layout: Vec<BufferLayoutNode>,
        buffer_usage: BufferUsage,
    ) -> (r: OglBuffer)
        requires
            layout_width(buffer_layout@) <= usize::MAX,
            layout_stride(buffer_layout@) <= usize::MAX,
            buffer_type == BufferType::Vertex ==> layout_width(buffer_layout@) > 0,
        ensures
            r.wf(),
            r.spec_id() == id,
            r.spec_type() == buffer_type,
            r.spec_usage() == buffer_usage,
            r.spec_layout() == buffer_layout@,
            r.spec_element_count() == element_count_of(data_len as nat, buffer_layout@, buffer_type),
    {
        let element_count = Self::calculate_element_count(data_len, &buffer_layout, buffer_type);
        OglBuffer { id, buffer_type, usage: buffer_usage, buffer_layout, element_count }
    }

    /// The number of bytes of storage to reserve: `size` where given, else
    /// room for `data_len` scalars of `scalar_size` bytes each.
    pub fn storage_size(data_len: usize, scalar_size: usize, size: Option<usize>) -> (r: usize)
        requires
            size is None ==> data_len * scalar_size <= usize::MAX,
        ensures
            r == match size {
                Some(n) => n as int,
                None => data_len * scalar_size,
            },
    {
        match size {
            Some(n) => n,
            None => data_len * scalar_size,
        }
    }

    /// The number of logical elements in `data_len` scalars.
    pub fn calculate_element_count(
        data_len: usize,
        layout: &Vec<BufferLayoutNode>,
        buffer_type: BufferType,
    ) -> (r: usize)
        requires
            layout_width(layout@) <= usize::MAX,
            buffer_type == BufferType::Vertex ==> layout_width(layout@) > 0,
        ensures
            r == element_count_of(data_len as nat, layout@, buffer_type),
    {
        match buffer_type {
            BufferType::Vertex => {
                let width = layout_width_of(layout);
                data_len / width
            },
            BufferType::Index => data_len,
        }
    }

    /// The backend handle of this buffer.
    pub fn get_id(&self) -> (r: u32)
        ensures
            r == self.spec_id(),
    {
        self.id
    }

    /// The role of this buffer.
    pub fn get_type(&self) -> (r: BufferType)
        ensures
            r == self.spec_type(),
    {
        self.buffer_type
    }

    /// The usage hint of this buffer.
    pub fn get_usage(&self) -> (r: BufferUsage)
        ensures
            r == self.spec_usage(),
    {
        self.usage
    }

    pub fn get_layout(&self) -> (r: &Vec<BufferLayoutNode>)
        ensures
            r@ == self.spec_layout(),
    {
        &self.buffer_layout
    }

    pub fn get_element_count(&self) -> (r: usize)
        ensures
            r == self.spec_element_count(),
    {
        self.element_count
    }

    /// Records a write of `data_len` scalars at `byte_offset` into the
    /// buffer's storage and recomputes the element count from it.
    pub fn add_sub_data(&mut self, data_len: usize, byte_offset: usize)
        requires
            old(self).wf(),
            byte_offset / 4 + data_len <= usize::MAX,
        ensures
            final(self).wf(),
            final(self).spec_id() == old(self).spec_id(),
            final(self).spec_type() == old(self).spec_type(),
            final(self).spec_usage() == old(self).spec_usage(),
            final(self).spec_layout() == old(self).spec_layout(),
            final(self).spec_element_count() == element_count_of(
                scalars_after_write(data_len as nat, byte_offset as nat),
                old(self).spec_layout(),
                old(self).spec_type(),
            ),
    {
        let scalars = if byte_offset == 0 {
            data_len
        } else {
            byte_offset / 4 + data_len
        };
        self.element_count = Self::calculate_element_count(scalars, &self.buffer_layout, self.buffer_type);
    }
}

/// A vertex buffer filled with a whole number of vertices holds exactly
/// that many elements: `N` scalars over a layout of logical width `W > 0`,
/// with `W` dividing `N`, give `N / W` elements, and these times `W` are `N`.
pub proof fn lemma_vertex_count_exact(scalars: nat, layout: Seq<BufferLayoutNode>)
    requires
        layout_width(layout) > 0,
        scalars % layout_width(layout) == 0,
    ensures
        element_count_of(scalars, layout, BufferType::Vertex) == scalars / layout_width(layout),
        element_count_of(scalars, layout, BufferType::Vertex) * layout_width(layout) == scalars,
{
    let w = layout_width(layout) as int;
    vstd::arithmetic::div_mod::lemma_fundamental_div_mod(scalars as int, w);
}

} // verus!
