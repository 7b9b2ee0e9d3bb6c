use vstd::prelude::*;
use crate::buffer::{BufferType, OglBuffer};
use crate::shader::OglShader;
use crate::texture::OglTexture;
use crate::vertex_array::{AttribPointer, DrawCall, OglVertexArray, attrib_for};

verus! {

/// Static geometry drawn with one shader and an optional texture.
pub struct Mesh {
    vertex_array: OglVertexArray,
    shader: OglShader,
    texture: Option<OglTexture>,
}

impl Mesh {
    pub closed spec fn spec_vertex_array(&self) -> OglVertexArray {
        self.vertex_array
    }

    pub closed spec fn spec_shader(&self) -> OglShader {
        self.shader
    }

    pub closed spec fn spec_texture(&self) -> Option<OglTexture> {
        self.texture
    }

    /// A mesh over a fresh vertex array with handle `vertex_array_id` holding
    /// `vertex_buffer`; also returns the attribute slots to describe.
    pub fn new(vertex_array_id: u32, vertex_buffer: OglBuffer, shader: OglShader) -> (r: (Mesh, Vec<AttribPointer>))
        requires
            vertex_buffer.wf(),
            vertex_buffer.spec_layout().len() <= u32::MAX,
        ensures
            r.0.spec_vertex_array().wf(),
            r.0.spec_vertex_array().spec_id() == vertex_array_id,
            r.0.spec_vertex_array().spec_vertex_buffers() == seq![vertex_buffer],
            r.0.spec_vertex_array().spec_index_buffer() is None,
            r.0.spec_vertex_array().spec_attribs() == vertex_buffer.spec_layout().len(),
            r.0.spec_vertex_array().spec_element_count() == vertex_buffer.spec_element_count(),
            r.0.spec_shader() == shader,
            r.0.spec_texture() is None,
            r.1@.len() == vertex_buffer.spec_layout().len(),
            forall|i: int| 0 <= i < r.1@.len() ==> r.1@[i] == attrib_for(vertex_buffer.spec_layout(), 0, i),
    {
        let mut vertex_array = OglVertexArray::new(vertex_array_id);
        let pointers = vertex_array.add_buffer(vertex_buffer, BufferType::Vertex);
        assert(vertex_array.spec_vertex_buffers() =~= seq![vertex_buffer]);
        (Mesh { vertex_array, shader, texture: None }, pointers)
    }

    /// A mesh over a fresh vertex array with handle `vertex_array_id` holding
    /// `vertex_buffer` and drawn through `index_buffer`; also returns the
    /// attribute slots to describe.
    pub fn new_indexed(
        vertex_array_id: u32,
        vertex_buffer: OglBuffer,
        index_buffer: OglBuffer,
        shader: OglShader,
    ) -> (r: (Mesh, Vec<AttribPointer>))
        requires
            vertex_buffer.wf(),
            index_buffer.wf(),
            vertex_buffer.spec_layout().len() <= u32::MAX,
        ensures
            r.0.spec_vertex_array().wf(),
            r.0.spec_vertex_array().spec_id() == vertex_array_id,
            r.0.spec_vertex_array().spec_vertex_buffers() == seq![vertex_buffer],
            r.0.spec_vertex_array().spec_index_buffer() == Some(index_buffer),
            r.0.spec_vertex_array().spec_attribs() == vertex_buffer.spec_layout().len(),
            r.0.spec_vertex_array().spec_element_count() == vertex_buffer.spec_element_count(),
            r.0.spec_shader() == shader,
            r.0.spec_texture() is None,
            r.1@.len() == vertex_buffer.spec_layout().len(),
            forall|i: int| 0 <= i < r.1@.len() ==> r.1@[i] == attrib_for(vertex_buffer.spec_layout(), 0, i),
    {
        let mut vertex_array = OglVertexArray::new(vertex_array_id);
        let pointers = vertex_array.add_buffer(vertex_buffer, BufferType::Vertex);
        let _ = vertex_array.add_buffer(index_buffer, BufferType::Index);
        assert(vertex_array.spec_vertex_buffers() =~= seq![vertex_buffer]);
        (Mesh { vertex_array, shader, texture: None }, pointers)
    }

    /// Gives the mesh a texture, bound to slot zero when it is drawn.
    pub fn set_texture(&mut self, texture: OglTexture)
        ensures
            final(self).spec_texture() == Some(texture),
            final(self).spec_vertex_array() == old(self).spec_vertex_array(),
            final(self).spec_shader() == old(self).spec_shader(),
    {
        self.texture = Some(texture);
    }

    pub fn get_shader(&self) -> (r: &OglShader)
        ensures
            *r == self.spec_shader(),
    {
        &self.shader
    }

    pub fn get_texture(&self) -> (r: Option<OglTexture>)
        ensures
            r == self.spec_texture(),
    {
        self.texture
    }

    pub fn get_vertex_array(&self) -> (r: &OglVertexArray)
        ensures
            *r == self.spec_vertex_array(),
    {
        &self.vertex_array
    }

    /// The one draw the mesh issues.
    pub fn draw(&self) -> (r: DrawCall)
        ensures
            r == self.spec_vertex_array().draw_of(),
    {
        self.vertex_array.draw()
    }
}

} // verus!
