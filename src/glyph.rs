use vstd::prelude::*;
use dashmap::DashMap;
use crate::buffer::{BufferDataType, BufferLayoutNode};
use crate::texture::OglTexture;

verus! {

/// `dashmap::DashMap`, held opaque: what a glyph map holds is named by
/// `cached_glyphs` and described by the wrappers below.
#[verifier::external_type_specification]
#[verifier::external_body]
#[verifier::reject_recursive_types(K)]
#[verifier::reject_recursive_types(V)]
#[verifier::reject_recursive_types(S)]
pub struct ExDashMap<K, V, S>(DashMap<K, V, S>);

/// A rasterized character: its texture and its font metrics in pixels,
/// except `advance`, which is in 1/64 pixel.
#[derive(Clone, Copy, Debug)]
pub struct Glyph {
    pub texture: OglTexture,
    pub size: (u32, u32),
    pub bearing: (u32, u32),
    pub advance: u32,
}

/// The whole pixels by which the pen moves past a glyph.
pub open spec fn advance_pixels(g: Glyph) -> nat {
    g.advance as nat / 64
}

/// The pen's offset from the text's start before glyph `k`: the sum of the
/// whole-pixel advances of the glyphs before it.
pub open spec fn pen_before(glyphs: Seq<Glyph>, k: int) -> nat
    decreases k,
{
    if k <= 0 {
        0
    } else {
        pen_before(glyphs, k - 1) + advance_pixels(glyphs[k - 1])
    }
}

/// The unscaled horizontal origin of glyph `k`'s quad: the pen's offset plus
/// the glyph's horizontal bearing.
pub open spec fn glyph_origin(glyphs: Seq<Glyph>, k: int) -> nat {
    pen_before(glyphs, k) + glyphs[k].bearing.0 as nat
}

/// What the glyph map of a cache holds.
pub uninterp spec fn cached_glyphs(m: DashMap<char, Glyph>) -> Map<char, Glyph>;

/// Relies on `DashMap::new`: a new map holds no entries.
#[verifier::external_body]
fn glyph_map_new() -> (r: DashMap<char, Glyph>)
    ensures
        (cached_glyphs(r) == Map::<char, Glyph>::empty()),
{
    DashMap::new()
}

/// Relies on `DashMap::get`: the value stored under the key, if any.
#[verifier::external_body]
fn glyph_map_get(m: &DashMap<char, Glyph>, c: char) -> (r: Option<Glyph>)
    ensures
        r matches Some(g) ==> cached_glyphs(*m).contains_key(c) && cached_glyphs(*m)[c] == g,
        r is None ==> !cached_glyphs(*m).contains_key(c),
{
    match m.get(&c) {
        Some(entry) => Some(*entry),
        None => None,
    }
}

/// Relies on `DashMap::entry` and `Entry::or_insert`: a key already present
/// keeps its value, which is returned; an absent key gets `g`.
#[verifier::external_body]
fn glyph_map_get_or_insert(m: &mut DashMap<char, Glyph>, c: char, g: Glyph) -> (r: Glyph)
    ensures
        cached_glyphs(*old(m)).contains_key(c) ==> {
            &&& cached_glyphs(*final(m)) == cached_glyphs(*old(m))
            &&& r == cached_glyphs(*old(m))[c]
        },
        !cached_glyphs(*old(m)).contains_key(c) ==> {
            &&& cached_glyphs(*final(m)) == cached_glyphs(*old(m)).insert(c, g)
            &&& r == g
        },
{
    *m.entry(c).or_insert(g)
}

/// Relies on `DashMap::len`: the number of entries.
#[verifier::external_body]
fn glyph_map_len(m: &DashMap<char, Glyph>) -> (r: usize)
    ensures
        r == cached_glyphs(*m).len(),
{
    m.len()
}

/// The entries and the glyph returned when `g` is offered to a cache holding
/// `m` for the character `c`: the first glyph stored for a character stays.
pub open spec fn offer_outcome(m: Map<char, Glyph>, c: char, g: Glyph) -> (Map<char, Glyph>, Glyph) {
    if m.contains_key(c) {
        (m, m[c])
    } else {
        (m.insert(c, g), g)
    }
}

/// Rasterized glyphs by character, filled once per character and never
/// evicted.
pub struct GlyphCache {
    glyphs: DashMap<char, Glyph>,
}

impl GlyphCache {
    pub closed spec fn spec_entries(&self) -> Map<char, Glyph> {
        cached_glyphs(self.glyphs)
    }

    /// An empty cache.
    pub fn new() -> (r: GlyphCache)
        ensures
            (r.spec_entries() == Map::<char, Glyph>::empty()),
    {
        GlyphCache { glyphs: glyph_map_new() }
    }

    /// The cached glyph of `c`, if there is one.
    pub fn get(&self, c: char) -> (r: Option<Glyph>)
        ensures
            r matches Some(g) ==> self.spec_entries().contains_key(c) && self.spec_entries()[c] == g,
            r is None ==> !self.spec_entries().contains_key(c),
    {
        glyph_map_get(&self.glyphs, c)
    }

    /// Offers `g` as the glyph of `c`. Where `c` already has a glyph, that one
    /// stays and is returned; else `g` is stored and returned.
    pub fn insert_if_absent(&mut self, c: char, g: Glyph) -> (r: Glyph)
        ensures
            (final(self).spec_entries(), r) == offer_outcome(old(self).spec_entries(), c, g),
    {
        glyph_map_get_or_insert(&mut self.glyphs, c, g)
    }

    /// The number of characters cached.
    pub fn len(&self) -> (r: usize)
        ensures
            r == self.spec_entries().len(),
    {
        glyph_map_len(&self.glyphs)
    }
}

/// Offering a glyph for a character a second time changes nothing: the
/// second offer returns the glyph that the first left in the cache, the
/// cache keeps exactly that one entry for the character, and the other
/// characters' entries are those from before.
pub proof fn lemma_offer_twice_keeps_first(m: Map<char, Glyph>, c: char, g1: Glyph, g2: Glyph)
    ensures
        ({
            let (m1, r1) = offer_outcome(m, c, g1);
            let (m2, r2) = offer_outcome(m1, c, g2);
            &&& r2 == r1
            &&& m2 == m1
            &&& m1.contains_key(c) && m1[c] == r1
            &&& m.contains_key(c) ==> r1 == m[c]
            &&& forall|d: char| d != c ==> (#[trigger] m1.contains_key(d) == m.contains_key(d))
            &&& forall|d: char| d != c && m.contains_key(d) ==> #[trigger] m1[d] == m[d]
        }),
{
}

proof fn lemma_pen_before_bounded(glyphs: Seq<Glyph>, k: int)
    requires
        0 <= k,
    ensures
        pen_before(glyphs, k) <= k * 67108864,
    decreases k,
{
    if k > 0 {
        lemma_pen_before_bounded(glyphs, k - 1);
        assert(advance_pixels(glyphs[k - 1]) <= 67108864);
    }
}

impl Glyph {
    /// The layout of a glyph quad's vertices: a 2D position and a 2D texture
    /// coordinate, four `F32` scalars in one attribute.
    pub fn get_buffer_layout() -> (r: Vec<BufferLayoutNode>)
        ensures
            r@ == seq![BufferLayoutNode { elements: 4, data_type: BufferDataType::F32, normalized: false }],
    {
        let r = vec![BufferLayoutNode { elements: 4, data_type: BufferDataType::F32, normalized: false }];
        assert(r@ =~= seq![BufferLayoutNode { elements: 4, data_type: BufferDataType::F32, normalized: false }]);
        r
    }

    /// The whole pixels by which the pen moves past this glyph.
    pub fn advance_pixels(&self) -> (r: u32)
        ensures
            r == advance_pixels(*self),
    {
        self.advance / 64
    }

    /// The unscaled horizontal origin of each glyph's quad when `glyphs` are
    /// laid out left to right from offset zero: the whole-pixel advances of
    /// the glyphs before it plus its own bearing. Scaled by the text's scale
    /// and moved to its position, these give the quads' left edges.
    pub fn pen_origins(glyphs: &Vec<Glyph>) -> (r: Vec<u64>)
        requires
            glyphs@.len() <= u32::MAX,
        ensures
            r@.len() == glyphs@.len(),
            forall|k: int| 0 <= k < r@.len() ==> r@[k] == glyph_origin(glyphs@, k),
    {
        let mut origins: Vec<u64> = Vec::new();
        let mut pen: u64 = 0;
        let mut i: usize = 0;
        while i < glyphs.len()
            invariant
                0 <= i <= glyphs@.len(),
                glyphs@.len() <= u32::MAX,
                pen == pen_before(glyphs@, i as int),
                origins@.len() == i,
                forall|k: int| 0 <= k < i ==> origins@[k] == glyph_origin(glyphs@, k),
            decreases glyphs@.len() - i,
        {
            let g = glyphs[i];
            proof {
                lemma_pen_before_bounded(glyphs@, i + 1);
                assert((i + 1) * 67108864 <= 4294967296 * 67108864) by (nonlinear_arith)
                    requires i + 1 <= 4294967296;
            }
            origins.push(pen + g.bearing.0 as u64);
            pen = pen + g.advance_pixels() as u64;
            i = i + 1;
        }
        origins
    }
}

} // verus!
