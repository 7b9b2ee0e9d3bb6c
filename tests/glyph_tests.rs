use trash_render::buffer::{BufferDataType, BufferLayoutNode};
use trash_render::glyph::{Glyph, GlyphCache};
use trash_render::texture::{create_texture, OglTexture, TextureFormat};

fn glyph(tex: u32, width: u32, bearing_x: u32, advance: u32) -> Glyph {
    Glyph {
        texture: create_texture(tex, width, 20, TextureFormat::Red, BufferDataType::U8),
        size: (width, 20),
        bearing: (bearing_x, 15),
        advance,
    }
}

#[test]
fn glyph_layout_is_one_vec4() {
    let l = Glyph::get_buffer_layout();
    assert_eq!(l, vec![BufferLayoutNode { elements: 4, data_type: BufferDataType::F32, normalized: false }]);
}

#[test]
fn cache_starts_empty() {
    let cache = GlyphCache::new();
    assert_eq!(cache.len(), 0);
    assert!(cache.get('a').is_none());
}

#[test]
fn same_character_twice_returns_cached_glyph() {
    let mut cache = GlyphCache::new();
    let first = cache.insert_if_absent('a', glyph(11, 10, 1, 640));
    let second = cache.insert_if_absent('a', glyph(12, 30, 2, 128));
    assert_eq!(first.texture.get_id(), 11);
    assert_eq!(second.texture.get_id(), 11);
    assert_eq!(second.size, (10, 20));
    assert_eq!(cache.len(), 1);
    assert_eq!(cache.get('a').unwrap().texture.get_id(), 11);
}

#[test]
fn distinct_characters_get_distinct_entries() {
    let mut cache = GlyphCache::new();
    cache.insert_if_absent('a', glyph(11, 10, 1, 640));
    cache.insert_if_absent('b', glyph(12, 10, 1, 640));
    assert_eq!(cache.len(), 2);
    assert_eq!(cache.get('b').unwrap().texture.get_id(), 12);
}

#[test]
fn advance_in_whole_pixels() {
    assert_eq!(glyph(1, 1, 0, 640).advance_pixels(), 10);
    assert_eq!(glyph(1, 1, 0, 703).advance_pixels(), 10);
    assert_eq!(glyph(1, 1, 0, 63).advance_pixels(), 0);
}

#[test]
fn pen_origins_accumulate_advances() {
    let glyphs = vec![glyph(1, 10, 2, 640), glyph(2, 10, 3, 704), glyph(3, 10, 0, 100)];
    assert_eq!(Glyph::pen_origins(&glyphs), vec![2, 10 + 3, 10 + 11]);
    assert!(Glyph::pen_origins(&Vec::new()).is_empty());
}

#[test]
fn texture_keeps_its_description() {
    let t: OglTexture = create_texture(9, 64, 32, TextureFormat::RGBA, BufferDataType::U8);
    assert_eq!(t.get_id(), 9);
    assert_eq!(t.get_width(), 64);
    assert_eq!(t.get_height(), 32);
    assert_eq!(t.get_format(), TextureFormat::RGBA);
    assert_eq!(t.get_data_type(), BufferDataType::U8);
    let copy = t;
    assert_eq!(copy, t);
}
