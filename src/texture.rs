use vstd::prelude::*;
use crate::buffer::BufferDataType;

verus! {

/// The channel layout of a texture's pixels.
#[derive(Clone, Copy, Debug, PartialEq, Eq, Structural)]
pub enum TextureFormat {
    RGBA,
    RGB,
    Red,
    Green,
    Blue,
    Alpha,
}

/// A handle to a 2D image held by the backend. Copying the handle shares the
/// image; it does not copy pixels.
#[derive(Clone, Copy, Debug, PartialEq, Eq, Structural)]
pub struct OglTexture {
    id: u32,
    width: u32,
    height: u32,
    format: TextureFormat,
    data_type: BufferDataType,
}

impl OglTexture {
    pub closed spec fn spec_id(&self) -> u32 {
        self.id
    }

    pub closed spec fn spec_width(&self) -> u32 {
        self.width
    }

    pub closed spec fn spec_height(&self) -> u32 {
        self.height
    }

    pub closed spec fn spec_format(&self) -> TextureFormat {
        self.format
    }

    pub closed spec fn spec_data_type(&self) -> BufferDataType {
        self.data_type
    }

    /// The texture with backend handle `id` holding a `width` by `height`
    /// image of the given format and scalar type.
    pub fn new(id: u32, width: u32, height: u32, format: TextureFormat, data_type: BufferDataType) -> (r: OglTexture)
        ensures
            r.spec_id() == id,
            r.spec_width() == width,
            r.spec_height() == height,
            r.spec_format() == format,
            r.spec_data_type() == data_type,
    {
        OglTexture { id, width, height, format, data_type }
    }

    /// The backend handle of this texture.
    pub fn get_id(&self) -> (r: u32)
        ensures
            r == self.spec_id(),
    {
        self.id
    }

    pub fn get_width(&self) -> (r: u32)
        ensures
            r == self.spec_width(),
    {
        self.width
    }

    pub fn get_height(&self) -> (r: u32)
        ensures
            r == self.spec_height(),
    {
        self.height
    }

    pub fn get_format(&self) -> (r: TextureFormat)
        ensures
            r == self.spec_format(),
    {
        self.format
    }

    pub fn get_data_type(&self) -> (r: BufferDataType)
        ensures
            r == self.spec_data_type(),
    {
        self.data_type
    }
}

/// Describes the texture that the backend created with handle `id` from a
/// `width` by `height` image.
pub fn create_texture(id: u32, width: u32, height: u32, format: TextureFormat, data_type: BufferDataType) -> (r: OglTexture)
    ensures
        r.spec_id() == id,
        r.spec_width() == width,
        r.spec_height() == height,
        r.spec_format() == format,
        r.spec_data_type() == data_type,
{
    OglTexture::new(id, width, height, format, data_type)
}

} // verus!
