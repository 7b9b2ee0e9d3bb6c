use trash_render::vertex_array::OglVertexArray;
use trash_render::buffer::{
    layout_stride_of, layout_width_of, BufferDataType, BufferLayoutNode, BufferType, BufferUsage,
    OglBuffer,
};

fn node(elements: u32, data_type: BufferDataType, normalized: bool) -> BufferLayoutNode {
    BufferLayoutNode { elements, data_type, normalized }
}

fn quad_layout() -> Vec<BufferLayoutNode> {
    vec![node(4, BufferDataType::F32, false)]
}

#[test]
fn stride_and_width_of_mixed_layout() {
    let layout = vec![
        node(3, BufferDataType::F32, false),
        node(2, BufferDataType::F64, false),
        node(4, BufferDataType::U8, true),
        node(1, BufferDataType::I16, false),
    ];
    assert_eq!(layout_stride_of(&layout), 12 + 16 + 4 + 2);
    assert_eq!(layout_width_of(&layout), 10);
    assert_eq!(BufferLayoutNode::get_layout_size(layout), 10);
}

#[test]
fn stride_and_width_of_empty_layout() {
    let layout: Vec<BufferLayoutNode> = Vec::new();
    assert_eq!(layout_stride_of(&layout), 0);
    assert_eq!(BufferLayoutNode::get_layout_size(layout), 0);
}

#[test]
fn scalar_sizes() {
    assert_eq!(OglVertexArray::get_type_size(BufferDataType::F32), 4);
    assert_eq!(OglVertexArray::get_type_size(BufferDataType::F64), 8);
    assert_eq!(OglVertexArray::get_type_size(BufferDataType::I8), 1);
    assert_eq!(OglVertexArray::get_type_size(BufferDataType::I16), 2);
    assert_eq!(OglVertexArray::get_type_size(BufferDataType::I32), 4);
    assert_eq!(OglVertexArray::get_type_size(BufferDataType::U8), 1);
    assert_eq!(OglVertexArray::get_type_size(BufferDataType::U16), 2);
    assert_eq!(OglVertexArray::get_type_size(BufferDataType::U32), 4);
}

#[test]
fn vertex_buffer_counts_whole_vertices() {
    let b = OglBuffer::new(7, 24, BufferType::Vertex, quad_layout(), BufferUsage::Static);
    assert_eq!(b.get_element_count(), 6);
    assert_eq!(b.get_id(), 7);
    assert_eq!(b.get_type(), BufferType::Vertex);
    assert_eq!(b.get_usage(), BufferUsage::Static);
    assert_eq!(b.get_layout().len(), 1);
}

#[test]
fn index_buffer_counts_indices() {
    let b = OglBuffer::new(1, 6, BufferType::Index, Vec::new(), BufferUsage::Static);
    assert_eq!(b.get_element_count(), 6);
}

#[test]
fn empty_upload_has_no_elements() {
    let b = OglBuffer::new(2, 0, BufferType::Vertex, quad_layout(), BufferUsage::Dynamic);
    assert_eq!(b.get_element_count(), 0);
}

#[test]
fn sub_data_at_offset_zero_replaces_count() {
    let mut b = OglBuffer::new(3, 8, BufferType::Vertex, quad_layout(), BufferUsage::Dynamic);
    assert_eq!(b.get_element_count(), 2);
    b.add_sub_data(4, 0);
    assert_eq!(b.get_element_count(), 1);
}

#[test]
fn sub_data_at_byte_offset_extends_count() {
    let mut b = OglBuffer::new(3, 8, BufferType::Vertex, quad_layout(), BufferUsage::Dynamic);
    b.add_sub_data(4, 0);
    b.add_sub_data(4, 8);
    assert_eq!(b.get_element_count(), 1);
    b.add_sub_data(8, 16);
    assert_eq!(b.get_element_count(), 3);
}

#[test]
fn storage_size_prefers_explicit_size() {
    assert_eq!(OglBuffer::storage_size(0, 4, Some(96)), 96);
    assert_eq!(OglBuffer::storage_size(10, 4, None), 40);
    assert_eq!(OglBuffer::storage_size(0, 4, None), 0);
}

#[test]
fn element_count_helper() {
    let layout = vec![node(3, BufferDataType::F32, false), node(2, BufferDataType::F32, false)];
    assert_eq!(OglBuffer::calculate_element_count(20, &layout, BufferType::Vertex), 4);
    assert_eq!(OglBuffer::calculate_element_count(20, &layout, BufferType::Index), 20);
}
