use vstd::prelude::*;
use crate::glyph::{Glyph, GlyphCache};

verus! {

/// The glyphs of `text`, one per character in order, as `entries` holds
/// them.
pub open spec fn glyphs_of(entries: Map<char, Glyph>, text: Seq<char>) -> Seq<Glyph> {
    Seq::new(text.len(), |k: int| entries[text[k]])
}

/// Whether every character of `text` has an entry.
pub open spec fn all_cached(entries: Map<char, Glyph>, text: Seq<char>) -> bool {
    forall|k: int| 0 <= k < text.len() ==> entries.contains_key(#[trigger] text[k])
}

impl GlyphCache {
    /// The distinct characters of `text` that have no glyph yet.
    pub fn missing(&self, text: &Vec<char>) -> (r: Vec<char>)
        ensures
            forall|k: int| 0 <= k < text@.len() && !self.spec_entries().contains_key(#[trigger] text@[k]) ==> r@.contains(text@[k]),
            forall|j: int| 0 <= j < r@.len() ==> text@.contains(#[trigger] r@[j]) && !self.spec_entries().contains_key(r@[j]),
            r@.no_duplicates(),
    {
        let mut r: Vec<char> = Vec::new();
        let mut i: usize = 0;
        while i < text.len()
            invariant
                0 <= i <= text@.len(),
                forall|k: int| 0 <= k < i && !self.spec_entries().contains_key(#[trigger] text@[k]) ==> r@.contains(text@[k]),
                forall|j: int| 0 <= j < r@.len() ==> text@.contains(#[trigger] r@[j]) && !self.spec_entries().contains_key(r@[j]),
                r@.no_duplicates(),
            decreases text@.len() - i,
        {
            let c = text[i];
            if self.get(c).is_none() {
                let mut seen = false;
                let mut j: usize = 0;
                while j < r.len()
                    invariant
                        0 <= j <= r@.len(),
                        seen == exists|m: int| 0 <= m < j && r@[m] == c,
                    decreases r@.len() - j,
                {
                    if r[j] == c {
                        seen = true;
                    }
                    j = j + 1;
                }
                if !seen {
                    let ghost before = r@;
                    r.push(c);
                    proof {
                        assert(r@ == before.push(c));
                        assert forall|a: int, b: int| 0 <= a < b < r@.len() implies r@[a] != r@[b] by {
                            if b == r@.len() - 1 {
                                assert(before[a] == r@[a]);
                            }
                        }
                        assert(r@[r@.len() - 1] == c);
                        assert forall|j: int| 0 <= j < r@.len() implies text@.contains(#[trigger] r@[j]) && !self.spec_entries().contains_key(r@[j]) by {
                            if j < r@.len() - 1 {
                                assert(r@[j] == before[j]);
                            } else {
                                assert(text@[i as int] == c);
                            }
                        }
                        assert forall|k: int| 0 <= k < i + 1 && !self.spec_entries().contains_key(#[trigger] text@[k]) implies r@.contains(text@[k]) by {
                            if k < i {
                                let m = choose|m: int| 0 <= m < before.len() && before[m] == text@[k];
                                assert(r@[m] == text@[k]);
                            } else {
                                assert(r@[r@.len() - 1] == text@[k]);
                            }
                        }
                    }
                } else {
                    proof {
                        assert forall|k: int| 0 <= k < i + 1 && !self.spec_entries().contains_key(#[trigger] text@[k]) implies r@.contains(text@[k]) by {
                            if k == i {
                                let m = choose|m: int| 0 <= m < r@.len() && r@[m] == c;
                                assert(r@[m] == text@[k]);
                            }
                        }
                    }
                }
            }
            i = i + 1;
        }
        r
    }

    /// The glyphs of `text` in order, when every character has one; `None`
    /// when some character has none.
    pub fn glyphs_for(&self, text: &Vec<char>) -> (r: Option<Vec<Glyph>>)
        ensures
            r is Some <==> all_cached(self.spec_entries(), text@),
            r matches Some(gs) ==> gs@ == glyphs_of(self.spec_entries(), text@),
    {
        let mut glyphs: Vec<Glyph> = Vec::new();
        let mut i: usize = 0;
        while i < text.len()
            invariant
                0 <= i <= text@.len(),
                all_cached(self.spec_entries(), text@.take(i as int)),
                glyphs@ == glyphs_of(self.spec_entries(), text@.take(i as int)),
            decreases text@.len() - i,
        {
            match self.get(text[i]) {
                Some(g) => {
                    glyphs.push(g);
                    proof {
                        assert(glyphs@ =~= glyphs_of(self.spec_entries(), text@.take(i + 1)));
                        assert forall|k: int| 0 <= k < i + 1 implies self.spec_entries().contains_key(#[trigger] text@.take(i + 1)[k]) by {
                            if k < i {
                                assert(text@.take(i + 1)[k] == text@.take(i as int)[k]);
                            }
                        }
                    }
                },
                None => {
                    assert(!self.spec_entries().contains_key(text@[i as int]));
                    return None;
                },
            }
            i = i + 1;
        }
        proof {
            assert(text@.take(i as int) =~= text@);
        }
        Some(glyphs)
    }
}

/// A line of text and the glyphs that draw it.
pub struct TextLayout {
    text: Vec<char>,
    glyphs: Vec<Glyph>,
}

impl TextLayout {
    pub closed spec fn spec_text(&self) -> Seq<char> {
        self.text@
    }

    pub closed spec fn spec_glyphs(&self) -> Seq<Glyph> {
        self.glyphs@
    }

    /// The layout of `text` drawn with `glyphs`.
    pub fn new(text: Vec<char>, glyphs: Vec<Glyph>) -> (r: TextLayout)
        ensures
            r.spec_text() == text@,
            r.spec_glyphs() == glyphs@,
    {
        TextLayout { text, glyphs }
    }

    pub fn get_text(&self) -> (r: &Vec<char>)
        ensures
            r@ == self.spec_text(),
    {
        &self.text
    }

    pub fn get_glyphs(&self) -> (r: &Vec<Glyph>)
        ensures
            r@ == self.spec_glyphs(),
    {
        &self.glyphs
    }

    /// Whether `text` differs from the text laid out.
    pub fn text_changes(&self, text: &Vec<char>) -> (r: bool)
        ensures
            r == (text@ != self.spec_text()),
    {
        if text.len() != self.text.len() {
            return true;
        }
        let mut i: usize = 0;
        while i < text.len()
            invariant
                text@.len() == self.text@.len(),
                0 <= i <= text@.len(),
                forall|k: int| 0 <= k < i ==> text@[k] == self.text@[k],
            decreases text@.len() - i,
        {
            if text[i] != self.text[i] {
                return true;
            }
            i = i + 1;
        }
        assert(text@ =~= self.text@);
        false
    }

    /// Lays out `text` with `glyphs` when it differs from the current text;
    /// leaves the layout as it is when the text is unchanged. Returns whether
    /// it changed.
    pub fn set_text(&mut self, text: Vec<char>, glyphs: Vec<Glyph>) -> (r: bool)
        ensures
            r == (text@ != old(self).spec_text()),
            r ==> final(self).spec_text() == text@ && final(self).spec_glyphs() == glyphs@,
            !r ==> final(self).spec_text() == old(self).spec_text() && final(self).spec_glyphs() == old(self).spec_glyphs(),
    {
        if self.text_changes(&text) {
            self.text = text;
            self.glyphs = glyphs;
            true
        } else {
            false
        }
    }
}

} // verus!
