use trash_render::buffer::{BufferDataType, BufferLayoutNode, BufferType, BufferUsage, OglBuffer};
use trash_render::event::{Keycode, MouseButton};
use trash_render::mesh::Mesh;
use trash_render::shader::OglShader;
use trash_render::texture::{create_texture, TextureFormat};
use trash_render::vertex_array::DrawCall;

fn shader() -> OglShader {
    OglShader::new_from_file(4, b"#shader vertex\nv\n#shader fragment\nf\n").unwrap()
}

fn layout() -> Vec<BufferLayoutNode> {
    vec![
        BufferLayoutNode { elements: 3, data_type: BufferDataType::F32, normalized: false },
        BufferLayoutNode { elements: 2, data_type: BufferDataType::F32, normalized: false },
    ]
}

#[test]
fn mesh_draws_all_vertices() {
    let vb = OglBuffer::new(2, 15, BufferType::Vertex, layout(), BufferUsage::Static);
    let (mesh, pointers) = Mesh::new(1, vb, shader());
    assert_eq!(pointers.len(), 2);
    assert_eq!(pointers[1].index, 1);
    assert_eq!(pointers[1].offset, 12);
    assert_eq!(mesh.draw(), DrawCall::Arrays { count: 3 });
    assert!(mesh.get_texture().is_none());
    assert_eq!(mesh.get_shader().get_id(), 4);
}

#[test]
fn indexed_mesh_draws_indices() {
    let vb = OglBuffer::new(2, 15, BufferType::Vertex, layout(), BufferUsage::Static);
    let ib = OglBuffer::new(3, 6, BufferType::Index, Vec::new(), BufferUsage::Static);
    let (mut mesh, _) = Mesh::new_indexed(1, vb, ib, shader());
    assert_eq!(mesh.draw(), DrawCall::Elements { count: 6, index_type: BufferDataType::U32 });
    mesh.set_texture(create_texture(8, 2, 2, TextureFormat::RGB, BufferDataType::U8));
    assert_eq!(mesh.get_texture().unwrap().get_id(), 8);
    assert_eq!(mesh.get_vertex_array().get_id(), 1);
}

#[test]
fn key_codes_translate() {
    assert_eq!(Keycode::from_key_code(87), Some(Keycode::W));
    assert_eq!(Keycode::from_key_code(340), Some(Keycode::LeftShift));
    assert_eq!(Keycode::from_key_code(256), Some(Keycode::Escape));
    assert_eq!(Keycode::from_key_code(266), None);
    assert_eq!(Keycode::from_key_code(-1), None);
    assert_eq!(Keycode::PageDown.code(), 267);
    assert_eq!(Keycode::Space.code(), 32);
}

#[test]
fn mouse_buttons_translate() {
    assert_eq!(MouseButton::from_button_index(0), Some(MouseButton::Left));
    assert_eq!(MouseButton::from_button_index(1), Some(MouseButton::Right));
    assert_eq!(MouseButton::from_button_index(2), Some(MouseButton::Middle));
    assert_eq!(MouseButton::from_button_index(3), None);
}
