use trash_render::buffer::{BufferDataType, BufferLayoutNode, BufferType, BufferUsage, OglBuffer};
use trash_render::vertex_array::{DrawCall, OglVertexArray};

fn node(elements: u32, data_type: BufferDataType) -> BufferLayoutNode {
    BufferLayoutNode { elements, data_type, normalized: false }
}

#[test]
fn attribute_slots_ascend_across_buffers() {
    let mut va = OglVertexArray::new(1);
    let b1 = OglBuffer::new(
        2,
        10,
        BufferType::Vertex,
        vec![node(3, BufferDataType::F32), node(2, BufferDataType::F32)],
        BufferUsage::Static,
    );
    let b2 = OglBuffer::new(
        3,
        12,
        BufferType::Vertex,
        vec![node(1, BufferDataType::U8), node(1, BufferDataType::U16), node(2, BufferDataType::F64)],
        BufferUsage::Static,
    );
    let p1 = va.add_buffer(b1, BufferType::Vertex);
    let p2 = va.add_buffer(b2, BufferType::Vertex);
    let s1: Vec<u32> = p1.iter().map(|p| p.index).collect();
    let s2: Vec<u32> = p2.iter().map(|p| p.index).collect();
    assert_eq!(s1, vec![0, 1]);
    assert_eq!(s2, vec![2, 3, 4]);
    assert_eq!(va.get_attribs(), 5);
    assert_eq!(p1[0].stride, 20);
    assert_eq!(p1[0].offset, 0);
    assert_eq!(p1[1].offset, 12);
    assert_eq!(p1[1].elements, 2);
    assert_eq!(p2[0].stride, 1 + 2 + 16);
    assert_eq!(p2[1].offset, 1);
    assert_eq!(p2[2].offset, 3);
    assert_eq!(p2[2].data_type, BufferDataType::F64);
    assert_eq!(va.get_element_count(), 2 + 3);
    assert_eq!(va.get_buffers().len(), 2);
}

#[test]
fn draw_without_index_buffer_is_sequential() {
    let mut va = OglVertexArray::new(1);
    let b = OglBuffer::new(2, 9, BufferType::Vertex, vec![node(3, BufferDataType::F32)], BufferUsage::Static);
    va.add_buffer(b, BufferType::Vertex);
    assert_eq!(va.draw(), DrawCall::Arrays { count: 3 });
}

#[test]
fn index_buffer_decides_draw() {
    let mut va = OglVertexArray::new(1);
    let vb = OglBuffer::new(2, 9, BufferType::Vertex, vec![node(3, BufferDataType::F32)], BufferUsage::Static);
    let ib = OglBuffer::new(3, 6, BufferType::Index, Vec::new(), BufferUsage::Static);
    va.add_buffer(vb, BufferType::Vertex);
    let none = va.add_buffer(ib, BufferType::Index);
    assert!(none.is_empty());
    assert_eq!(va.draw(), DrawCall::Elements { count: 6, index_type: BufferDataType::U32 });
    assert_eq!(va.get_attribs(), 1);
}

#[test]
fn index_type_comes_from_index_layout() {
    let mut va = OglVertexArray::new(1);
    let ib = OglBuffer::new(3, 12, BufferType::Index, vec![node(1, BufferDataType::U16)], BufferUsage::Static);
    va.add_buffer(ib, BufferType::Index);
    assert_eq!(va.draw(), DrawCall::Elements { count: 12, index_type: BufferDataType::U16 });
}

#[test]
fn sub_data_moves_total_by_delta() {
    let mut va = OglVertexArray::new(1);
    let b1 = OglBuffer::new(2, 24, BufferType::Vertex, vec![node(4, BufferDataType::F32)], BufferUsage::Dynamic);
    let b2 = OglBuffer::new(3, 6, BufferType::Vertex, vec![node(2, BufferDataType::F32)], BufferUsage::Static);
    va.add_buffer(b1, BufferType::Vertex);
    va.add_buffer(b2, BufferType::Vertex);
    assert_eq!(va.get_element_count(), 9);
    va.add_buffer_sub_data(4, 0, 0);
    assert_eq!(va.get_buffers()[0].get_element_count(), 1);
    assert_eq!(va.get_buffers()[1].get_element_count(), 3);
    assert_eq!(va.get_element_count(), 4);
    va.add_buffer_sub_data(4, 16, 1);
    assert_eq!(va.get_buffers()[1].get_element_count(), 4);
    assert_eq!(va.get_element_count(), 5);
}
