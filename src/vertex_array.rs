use vstd::prelude::*;
use crate::buffer::{
    BufferDataType, BufferLayoutNode, BufferType, OglBuffer, layout_stride, layout_stride_of,
    element_count_of, scalars_after_write, type_size,
};

verus! {

/// How the backend is to describe one vertex attribute slot.
#[derive(Clone, Copy, Debug, PartialEq, Eq, Structural)]
pub struct AttribPointer {
    pub index: u32,
    pub elements: u32,
    pub data_type: BufferDataType,
    pub normalized: bool,
    pub stride: usize,
    pub offset: usize,
}

/// The draw that a vertex array dispatches, always over a triangle list.
#[derive(Clone, Copy, Debug, PartialEq, Eq, Structural)]
pub enum DrawCall {
    /// An indexed draw of `count` indices of type `index_type`.
    Elements { count: usize, index_type: BufferDataType },
    /// A sequential draw of the vertices `0..count`.
    Arrays { count: usize },
}

/// Sum of the element counts of a sequence of buffers.
pub open spec fn total_count(s: Seq<OglBuffer>) -> nat
    decreases s.len(),
{
    if s.len() == 0 {
        0
    } else {
        total_count(s.drop_last()) + s.last().spec_element_count()
    }
}

/// The descriptor of the attribute slot for node `i` of `layout`, when the
/// layout's first node takes slot `first`.
pub open spec fn attrib_for(layout: Seq<BufferLayoutNode>, first: nat, i: int) -> AttribPointer {
    AttribPointer {
        index: (first + i) as u32,
        elements: layout[i].elements,
        data_type: layout[i].data_type,
        normalized: layout[i].normalized,
        stride: layout_stride(layout) as usize,
        offset: layout_stride(layout.take(i)) as usize,
    }
}

/// The scalar type an index buffer's draw reads its indices as: that of its
/// first layout node, or `U32` where it declares none.
pub open spec fn index_type_of(layout: Seq<BufferLayoutNode>) -> BufferDataType {
    if layout.len() > 0 {
        layout[0].data_type
    } else {
        BufferDataType::U32
    }
}

/// A vertex array: its vertex buffers in binding order, an optional index
/// buffer, the next free attribute slot and the total vertex count.
pub struct OglVertexArray {
    id: u32,
    attribs: u32,
    vertex_buffers: Vec<OglBuffer>,
    index_buffer: Option<OglBuffer>,
    element_count: usize,
}

proof fn lemma_total_update(s: Seq<OglBuffer>, i: int, b: OglBuffer)
    requires
        0 <= i < s.len(),
    ensures
        total_count(s.update(i, b)) == total_count(s) - s[i].spec_element_count() + b.spec_element_count(),
        s[i].spec_element_count() <= total_count(s),
    decreases s.len(),
{
    let t = s.update(i, b);
    if i == s.len() - 1 {
        assert(t.drop_last() =~= s.drop_last());
    } else {
        lemma_total_update(s.drop_last(), i, b);
        assert(t.drop_last() =~= s.drop_last().update(i, b));
    }
}

proof fn lemma_stride_step(l: Seq<BufferLayoutNode>, i: int)
    requires
        0 <= i < l.len(),
    ensures
        layout_stride(l.take(i + 1)) == layout_stride(l.take(i)) + l[i].elements * type_size(l[i].data_type),
        layout_stride(l.take(i + 1)) <= layout_stride(l),
{
    assert(l.take(i + 1).drop_last() =~= l.take(i));
    crate::buffer::lemma_stride_prefix_bounded(l, i + 1);
}

impl OglVertexArray {
    pub closed spec fn spec_id(&self) -> u32 {
        self.id
    }

    /// The next free attribute slot.
    pub closed spec fn spec_attribs(&self) -> nat {
        self.attribs as nat
    }

    pub closed spec fn spec_vertex_buffers(&self) -> Seq<OglBuffer> {
        self.vertex_buffers@
    }

    pub closed spec fn spec_index_buffer(&self) -> Option<OglBuffer> {
        self.index_buffer
    }

    /// The number of vertices a non-indexed draw covers.
    pub closed spec fn spec_element_count(&self) -> nat {
        self.element_count as nat
    }

    /// The draw this array dispatches.
    pub open spec fn draw_of(&self) -> DrawCall {
        match self.spec_index_buffer() {
            Some(ib) => DrawCall::Elements {
                count: ib.spec_element_count() as usize,
                index_type: index_type_of(ib.spec_layout()),
            },
            None => DrawCall::Arrays { count: self.spec_element_count() as usize },
        }
    }

    /// Every attached buffer is well formed, and the vertex count is the sum
    /// of the vertex buffers' element counts.
    pub open spec fn wf(&self) -> bool {
        &&& forall|i: int| 0 <= i < self.spec_vertex_buffers().len() ==> (#[trigger] self.spec_vertex_buffers()[i]).wf()
        &&& self.spec_element_count() == total_count(self.spec_vertex_buffers())
    }

    /// An empty vertex array with backend handle `id`.
    pub fn new(id: u32) -> (r: OglVertexArray)
        ensures
            r.wf(),
            r.spec_id() == id,
            r.spec_attribs() == 0,
            r.spec_vertex_buffers() == Seq::<OglBuffer>::empty(),
            r.spec_index_buffer() is None,
            r.spec_element_count() == 0,
    {
        let r = OglVertexArray { id, attribs: 0, vertex_buffers: Vec::new(), index_buffer: None, element_count: 0 };
        assert(r.vertex_buffers@ =~= Seq::<OglBuffer>::empty());
        r
    }

    /// Size in bytes of one scalar of the given type.
    pub fn get_type_size(data_type: BufferDataType) -> (r: usize)
        ensures
            r == type_size(data_type),
    {
        match data_type {
            BufferDataType::F32 => 4,
            BufferDataType::F64 => 8,
            BufferDataType::I8 => 1,
            BufferDataType::I16 => 2,
            BufferDataType::I32 => 4,
            BufferDataType::U8 => 1,
            BufferDataType::U16 => 2,
            BufferDataType::U32 => 4,
        }
    }

    /// The backend handle of this vertex array.
    pub fn get_id(&self) -> (r: u32)
        ensures
            r == self.spec_id(),
    {
        self.id
    }

    /// The next free attribute slot.
    pub fn get_attribs(&self) -> (r: u32)
        ensures
            r == self.spec_attribs(),
    {
        self.attribs
    }

    /// The number of vertices a non-indexed draw covers.
    pub fn get_element_count(&self) -> (r: usize)
        ensures
            r == self.spec_element_count(),
    {
        self.element_count
    }

    /// The vertex buffers, in binding order.
    pub fn get_buffers(&self) -> (r: &Vec<OglBuffer>)
        ensures
            r@ == self.spec_vertex_buffers(),
    {
        &self.vertex_buffers
    }

    /// The index buffer, if one is attached.
    pub fn get_index_buffer(&self) -> (r: &Option<OglBuffer>)
        ensures
            *r == self.spec_index_buffer(),
    {
        &self.index_buffer
    }

    /// Attaches `buffer` in the role `buffer_type`. An index buffer becomes
    /// the array's index buffer. A vertex buffer is appended, each of its
    /// layout nodes takes the next attribute slot in order, and its elements
    /// are added to the vertex count; the descriptors of the new slots are
    /// returned, in slot order, for the backend to apply.
    pub fn add_buffer(&mut self, buffer: OglBuffer, buffer_type: BufferType) -> (r: Vec<AttribPointer>)
        requires
            old(self).wf(),
            buffer.wf(),
            buffer_type == BufferType::Vertex ==> old(self).spec_attribs() + buffer.spec_layout().len() <= u32::MAX,
            buffer_type == BufferType::Vertex ==> old(self).spec_element_count() + buffer.spec_element_count() <= usize::MAX,
        ensures
            final(self).wf(),
            final(self).spec_id() == old(self).spec_id(),
            buffer_type == BufferType::Index ==> {
                &&& r@.len() == 0
                &&& final(self).spec_index_buffer() == Some(buffer)
                &&& final(self).spec_attribs() == old(self).spec_attribs()
                &&& final(self).spec_vertex_buffers() == old(self).spec_vertex_buffers()
                &&& final(self).spec_element_count() == old(self).spec_element_count()
            },
            buffer_type == BufferType::Vertex ==> {
                &&& r@.len() == buffer.spec_layout().len()
                &&& forall|i: int| 0 <= i < r@.len() ==> r@[i] == attrib_for(buffer.spec_layout(), old(self).spec_attribs(), i)
                &&& final(self).spec_index_buffer() == old(self).spec_index_buffer()
                &&& final(self).spec_attribs() == old(self).spec_attribs() + buffer.spec_layout().len()
                &&& final(self).spec_vertex_buffers() == old(self).spec_vertex_buffers().push(buffer)
                &&& final(self).spec_element_count() == old(self).spec_element_count() + buffer.spec_element_count()
            },
    {
        let mut pointers: Vec<AttribPointer> = Vec::new();
        match buffer_type {
            BufferType::Index => {
                self.index_buffer = Some(buffer);
            },
            BufferType::Vertex => {
                let layout = buffer.get_layout();
                let stride = layout_stride_of(layout);
                let ghost first = self.attribs as nat;
                let ghost pre = *self;
                let mut offset: usize = 0;
                let mut i: usize = 0;
                while i < layout.len()
                    invariant
                        layout@ == buffer.spec_layout(),
                        pre.wf(),
                        self.id == pre.id,
                        self.vertex_buffers@ == pre.vertex_buffers@,
                        self.index_buffer == pre.index_buffer,
                        self.element_count == pre.element_count,
                        pre.element_count + buffer.spec_element_count() <= usize::MAX,
                        layout_stride(layout@) <= usize::MAX,
                        stride == layout_stride(layout@),
                        0 <= i <= layout@.len(),
                        first + layout@.len() <= u32::MAX,
                        self.attribs == first + i,
                        offset == layout_stride(layout@.take(i as int)),
                        pointers@.len() == i,
                        forall|k: int| 0 <= k < i ==> pointers@[k] == attrib_for(layout@, first, k),
                    decreases layout@.len() - i,
                {
                    let node = layout[i];
                    proof {
                        lemma_stride_step(layout@, i as int);
                    }
                    pointers.push(AttribPointer {
                        index: self.attribs,
                        elements: node.elements,
                        data_type: node.data_type,
                        normalized: node.normalized,
                        stride,
                        offset,
                    });
                    self.attribs = self.attribs + 1;
                    offset = offset + node.elements as usize * Self::get_type_size(node.data_type);
                    i = i + 1;
                }
                self.element_count = self.element_count + buffer.get_element_count();
                let ghost before = self.vertex_buffers@;
                self.vertex_buffers.push(buffer);
                proof {
                    assert(self.vertex_buffers@.drop_last() =~= before);
                }
            },
        }
        pointers
    }

    /// The draw this array dispatches: an indexed draw over the index buffer
    /// whenever one is attached, else a sequential draw over all vertices.
    pub fn draw(&self) -> (r: DrawCall)
        ensures
            r == self.draw_of(),
    {
        match &self.index_buffer {
            Some(ib) => {
                let layout = ib.get_layout();
                let index_type = if layout.len() > 0 {
                    layout[0].data_type
                } else {
                    BufferDataType::U32
                };
                DrawCall::Elements { count: ib.get_element_count(), index_type }
            },
            None => DrawCall::Arrays { count: self.element_count },
        }
    }

    /// Records a write of `data_len` scalars at `byte_offset` into vertex
    /// buffer `buffer_index`, and moves the vertex count by the change in
    /// that buffer's element count.
    pub fn add_buffer_sub_data(&mut self, data_len: usize, byte_offset: usize, buffer_index: usize)
        requires
            old(self).wf(),
            buffer_index < old(self).spec_vertex_buffers().len(),
            byte_offset / 4 + data_len <= usize::MAX,
            old(self).spec_element_count()
                - old(self).spec_vertex_buffers()[buffer_index as int].spec_element_count()
                + element_count_of(
                    scalars_after_write(data_len as nat, byte_offset as nat),
                    old(self).spec_vertex_buffers()[buffer_index as int].spec_layout(),
                    old(self).spec_vertex_buffers()[buffer_index as int].spec_type(),
                ) <= usize::MAX,
        ensures
            final(self).wf(),
            final(self).spec_id() == old(self).spec_id(),
            final(self).spec_attribs() == old(self).spec_attribs(),
            final(self).spec_index_buffer() == old(self).spec_index_buffer(),
            final(self).spec_vertex_buffers().len() == old(self).spec_vertex_buffers().len(),
            forall|j: int| 0 <= j < old(self).spec_vertex_buffers().len() && j != buffer_index ==>
                final(self).spec_vertex_buffers()[j] == old(self).spec_vertex_buffers()[j],
            ({
                let before = old(self).spec_vertex_buffers()[buffer_index as int];
                let after = final(self).spec_vertex_buffers()[buffer_index as int];
                &&& after.spec_id() == before.spec_id()
                &&& after.spec_type() == before.spec_type()
                &&& after.spec_usage() == before.spec_usage()
                &&& after.spec_layout() == before.spec_layout()
                &&& after.spec_element_count() == element_count_of(
                    scalars_after_write(data_len as nat, byte_offset as nat),
                    before.spec_layout(),
                    before.spec_type(),
                )
                &&& final(self).spec_element_count() == old(self).spec_element_count()
                    - before.spec_element_count() + after.spec_element_count()
            }),
    {
        let ghost before = self.vertex_buffers@;
        assert(before[buffer_index as int].wf());
        let old_count = self.vertex_buffers[buffer_index].get_element_count();
        self.vertex_buffers[buffer_index].add_sub_data(data_len, byte_offset);
        let new_count = self.vertex_buffers[buffer_index].get_element_count();
        proof {
            let buffer = self.vertex_buffers@[buffer_index as int];
            assert(self.vertex_buffers@ =~= before.update(buffer_index as int, buffer));
            lemma_total_update(before, buffer_index as int, buffer);
        }
        self.element_count = self.element_count - old_count + new_count;
        assert forall|i: int| 0 <= i < self.spec_vertex_buffers().len() implies (#[trigger] self.spec_vertex_buffers()[i]).wf() by {
            if i != buffer_index {
                assert(self.spec_vertex_buffers()[i] == before[i]);
            }
        }
    }
}

/// Attribute slots only ever ascend: when a vertex buffer whose layout is
/// `l1` and then one whose layout is `l2` are added to an array whose next
/// free slot is `first`, the first buffer takes the slots `first ..` in
/// layout order, the second the slots right after them, and every slot of
/// the second lies above every slot of the first.
pub proof fn lemma_attrib_slots_ascend(l1: Seq<BufferLayoutNode>, l2: Seq<BufferLayoutNode>, first: nat)
    requires
        first + l1.len() + l2.len() <= u32::MAX,
    ensures
        forall|i: int| 0 <= i < l1.len() ==> #[trigger] attrib_for(l1, first, i).index == first + i,
        forall|j: int| 0 <= j < l2.len() ==> #[trigger] attrib_for(l2, first + l1.len(), j).index == first + l1.len() + j,
        forall|i: int, j: int| 0 <= i < l1.len() && 0 <= j < l2.len() ==>
            #[trigger] attrib_for(l1, first, i).index < #[trigger] attrib_for(l2, first + l1.len(), j).index,
{
}

/// Once an index buffer is attached, a draw is indexed and covers exactly
/// the index buffer's elements, whatever the vertex buffers hold.
pub proof fn lemma_index_buffer_decides_draw(va: OglVertexArray, ib: OglBuffer)
    requires
        va.spec_index_buffer() == Some(ib),
    ensures
        va.draw_of() == (DrawCall::Elements {
            count: ib.spec_element_count() as usize,
            index_type: index_type_of(ib.spec_layout()),
        }),
{
}

} // verus!
