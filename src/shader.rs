use vstd::prelude::*;

verus! {

/// The marker that opens a section of a shader source file: `#shader `.
pub open spec fn marker() -> Seq<u8> {
    seq![35u8, 115u8, 104u8, 97u8, 100u8, 101u8, 114u8, 32u8]
}

/// Length of the section marker.
pub const MARKER_LEN: usize = 8;

/// The name of the vertex stage's section: `vertex`.
pub open spec fn vertex_name() -> Seq<u8> {
    seq![118u8, 101u8, 114u8, 116u8, 101u8, 120u8]
}

/// The name of the fragment stage's section: `fragment`.
pub open spec fn fragment_name() -> Seq<u8> {
    seq![102u8, 114u8, 97u8, 103u8, 109u8, 101u8, 110u8, 116u8]
}

/// Whether the marker starts at position `i` of `s`.
pub open spec fn marker_at(s: Seq<u8>, i: int) -> bool {
    0 <= i && i + 8 <= s.len() && s.subrange(i, i + 8) == marker()
}

/// The first position at or after `i` where a marker starts, or the length
/// of `s` where none does.
pub open spec fn next_marker(s: Seq<u8>, i: int) -> int
    decreases s.len() - i,
{
    if i < 0 || i + 8 > s.len() {
        s.len() as int
    } else if marker_at(s, i) {
        i
    } else {
        next_marker(s, i + 1)
    }
}

/// The first position in `i .. end` that holds a newline, or `end`.
pub open spec fn newline_in(s: Seq<u8>, i: int, end: int) -> int
    decreases end - i,
{
    if i < 0 || i >= end || end > s.len() {
        end
    } else if s[i] == 10u8 {
        i
    } else {
        newline_in(s, i + 1, end)
    }
}

/// The body of the piece `start .. end` of `s` if the piece is a section
/// named `name`: its text up to its first newline is `name`, and the body is
/// the rest of the piece from that newline on.
pub open spec fn section_in(s: Seq<u8>, start: int, end: int, name: Seq<u8>) -> Option<Seq<u8>> {
    let nl = newline_in(s, start, end);
    if 0 <= start <= nl && nl < end && end <= s.len() && s.subrange(start, nl) == name {
        Some(s.subrange(nl, end))
    } else {
        None
    }
}

/// The body of the last section named `name` among the pieces of `s` that
/// begin at `start`: a piece runs from its start to the next marker, and the
/// next piece begins right after that marker.
pub open spec fn section_from(s: Seq<u8>, start: int, name: Seq<u8>) -> Option<Seq<u8>>
    decreases s.len() - start,
{
    let e = next_marker(s, start);
    let later = if 0 <= start <= e && e + 8 <= s.len() {
        section_from(s, e + 8, name)
    } else {
        None
    };
    match later {
        Some(b) => Some(b),
        None => section_in(s, start, e, name),
    }
}

/// The body of the section named `name` in the shader source `s`. Only the
/// pieces that follow a marker are sections: text before the first marker
/// is none. Where the name is used twice the later section counts.
pub open spec fn section_of(s: Seq<u8>, name: Seq<u8>) -> Option<Seq<u8>> {
    let e = next_marker(s, 0);
    if 0 <= e && e + 8 <= s.len() {
        section_from(s, e + 8, name)
    } else {
        None
    }
}

pub open spec fn opt_view(o: Option<Vec<u8>>) -> Option<Seq<u8>> {
    match o {
        Some(v) => Some(v@),
        None => None,
    }
}

/// A programmable stage of a shader program.
#[derive(Clone, Copy, Debug, PartialEq, Eq, Structural)]
pub enum ShaderStage {
    Vertex,
    Fragment,
}

/// The section name of a stage.
pub open spec fn stage_name(stage: ShaderStage) -> Seq<u8> {
    match stage {
        ShaderStage::Vertex => vertex_name(),
        ShaderStage::Fragment => fragment_name(),
    }
}

/// Why a shader program could not be built from a source file.
#[derive(Clone, Copy, Debug, PartialEq, Eq, Structural)]
pub enum ShaderError {
    /// The file holds no section for the stage.
    MissingSection(ShaderStage),
}

fn marker_bytes() -> (r: Vec<u8>)
    ensures
        r@ == marker(),
{
    let r: Vec<u8> = vec![35u8, 115u8, 104u8, 97u8, 100u8, 101u8, 114u8, 32u8];
    assert(r@ =~= marker());
    r
}

/// The section name of `stage`, as bytes.
pub fn stage_name_bytes(stage: ShaderStage) -> (r: Vec<u8>)
    ensures
        r@ == stage_name(stage),
{
    match stage {
        ShaderStage::Vertex => {
            let r: Vec<u8> = vec![118u8, 101u8, 114u8, 116u8, 101u8, 120u8];
            assert(r@ =~= vertex_name());
            r
        },
        ShaderStage::Fragment => {
            let r: Vec<u8> = vec![102u8, 114u8, 97u8, 103u8, 109u8, 101u8, 110u8, 116u8];
            assert(r@ =~= fragment_name());
            r
        },
    }
}

/// Whether `pat` occurs in `s` at position `i`.
fn matches_at(s: &[u8], i: usize, pat: &Vec<u8>) -> (r: bool)
    requires
        i <= s@.len(),
    ensures
        r == (i + pat@.len() <= s@.len() && s@.subrange(i as int, i + pat@.len()) == pat@),
{
    if pat.len() > s.len() - i {
        return false;
    }
    let n = s.len();
    let mut j: usize = 0;
    while j < pat.len()
        invariant
            n == s@.len(),
            i + pat@.len() <= n,
            0 <= j <= pat@.len(),
            s@.subrange(i as int, i + j) == pat@.subrange(0, j as int),
        decreases pat@.len() - j,
    {
        if s[i + j] != pat[j] {
            assert(s@.subrange(i as int, i + pat@.len())[j as int] != pat@[j as int]);
            return false;
        }
        assert(s@.subrange(i as int, i + j + 1) =~= s@.subrange(i as int, i + j).push(s@[i + j]));
        assert(pat@.subrange(0, j + 1) =~= pat@.subrange(0, j as int).push(pat@[j as int]));
        j = j + 1;
    }
    assert(pat@.subrange(0, j as int) =~= pat@);
    true
}

/// The position of the first marker at or after `from`, or the length of `s`.
fn find_marker(s: &[u8], from: usize) -> (r: usize)
    requires
        from <= s@.len(),
    ensures
        r == next_marker(s@, from as int),
        from <= r <= s@.len(),
        r < s@.len() ==> r + 8 <= s@.len(),
{
    let m = marker_bytes();
    let mut i: usize = from;
    while i < s.len() && s.len() - i >= MARKER_LEN
        invariant
            m@ == marker(),
            from <= i <= s@.len(),
            next_marker(s@, from as int) == next_marker(s@, i as int),
        decreases s@.len() - i,
    {
        if matches_at(s, i, &m) {
            return i;
        }
        i = i + 1;
    }
    s.len()
}

/// The first position in `from .. end` that holds a newline, or `end`.
fn find_newline(s: &[u8], from: usize, end: usize) -> (r: usize)
    requires
        from <= end <= s@.len(),
    ensures
        r == newline_in(s@, from as int, end as int),
        from <= r <= end,
        r < end ==> s@[r as int] == 10u8,
{
    let mut i: usize = from;
    while i < end
        invariant
            from <= i <= end,
            end <= s@.len(),
            newline_in(s@, from as int, end as int) == newline_in(s@, i as int, end as int),
        decreases end - i,
    {
        if s[i] == 10u8 {
            return i;
        }
        i = i + 1;
    }
    end
}

/// A copy of `s[from .. end]`.
fn copy_range(s: &[u8], from: usize, end: usize) -> (r: Vec<u8>)
    requires
        from <= end <= s@.len(),
    ensures
        r@ == s@.subrange(from as int, end as int),
{
    let mut r: Vec<u8> = Vec::new();
    let mut i: usize = from;
    while i < end
        invariant
            from <= i <= end,
            end <= s@.len(),
            r@ == s@.subrange(from as int, i as int),
        decreases end - i,
    {
        r.push(s[i]);
        assert(s@.subrange(from as int, i + 1) =~= s@.subrange(from as int, i as int).push(s@[i as int]));
        i = i + 1;
    }
    r
}

/// The body of the piece `start .. end` if it is a section named `name`.
fn piece_section(s: &[u8], start: usize, end: usize, name: &Vec<u8>) -> (r: Option<Vec<u8>>)
    requires
        start <= end <= s@.len(),
    ensures
        opt_view(r) == section_in(s@, start as int, end as int, name@),
{
    let nl = find_newline(s, start, end);
    if nl < end && nl - start == name.len() && matches_at(s, start, name) {
        Some(copy_range(s, nl, end))
    } else {
        proof {
            if nl < end && s@.subrange(start as int, nl as int) == name@ {
                assert(s@.subrange(start as int, nl as int).len() == name@.len());
            }
        }
        None
    }
}

/// The body of the last section named `name` among the pieces that begin
/// at `start`.
fn section_from_pos(s: &[u8], start: usize, name: &Vec<u8>) -> (r: Option<Vec<u8>>)
    requires
        start <= s@.len(),
    ensures
        opt_view(r) == section_from(s@, start as int, name@),
    decreases s@.len() - start,
{
    let e = find_marker(s, start);
    let later = if e < s.len() {
        section_from_pos(s, e + MARKER_LEN, name)
    } else {
        None
    };
    match later {
        Some(b) => Some(b),
        None => piece_section(s, start, e, name),
    }
}

/// The body of the section of `stage` in the shader source `source`.
pub fn find_section(source: &[u8], stage: ShaderStage) -> (r: Option<Vec<u8>>)
    ensures
        opt_view(r) == section_of(source@, stage_name(stage)),
{
    let name = stage_name_bytes(stage);
    let e = find_marker(source, 0);
    if e < source.len() {
        section_from_pos(source, e + MARKER_LEN, &name)
    } else {
        None
    }
}

/// A shader program: its backend handle and the source of each stage.
pub struct OglShader {
    id: u32,
    vertex_source: Vec<u8>,
    fragment_source: Vec<u8>,
}

impl OglShader {
    pub closed spec fn spec_id(&self) -> u32 {
        self.id
    }

    pub closed spec fn spec_vertex_source(&self) -> Seq<u8> {
        self.vertex_source@
    }

    pub closed spec fn spec_fragment_source(&self) -> Seq<u8> {
        self.fragment_source@
    }

    /// A program with handle `id` and no stage sources yet.
    pub fn new(id: u32) -> (r: OglShader)
        ensures
            r.spec_id() == id,
            r.spec_vertex_source() == Seq::<u8>::empty(),
            r.spec_fragment_source() == Seq::<u8>::empty(),
    {
        let r = OglShader { id, vertex_source: Vec::new(), fragment_source: Vec::new() };
        assert(r.vertex_source@ =~= Seq::<u8>::empty());
        assert(r.fragment_source@ =~= Seq::<u8>::empty());
        r
    }

    /// Builds the program with handle `id` from the contents of a shader
    /// file. Fails, naming the vertex stage first, when the file lacks the
    /// section of a stage.
    pub fn new_from_file(id: u32, file_content: &[u8]) -> (r: Result<OglShader, ShaderError>)
        ensures
            section_of(file_content@, vertex_name()) is None ==>
                r == Err::<OglShader, ShaderError>(ShaderError::MissingSection(ShaderStage::Vertex)),
            section_of(file_content@, vertex_name()) is Some
                && section_of(file_content@, fragment_name()) is None ==>
                r == Err::<OglShader, ShaderError>(ShaderError::MissingSection(ShaderStage::Fragment)),
            r is Ok <==> (section_of(file_content@, vertex_name()) is Some
                && section_of(file_content@, fragment_name()) is Some),
            r matches Ok(sh) ==> {
                &&& sh.spec_id() == id
                &&& section_of(file_content@, vertex_name()) == Some(sh.spec_vertex_source())
                &&& section_of(file_content@, fragment_name()) == Some(sh.spec_fragment_source())
            },
    {
        let vertex = find_section(file_content, ShaderStage::Vertex);
        let vertex_source = match vertex {
            Some(v) => v,
            None => return Err(ShaderError::MissingSection(ShaderStage::Vertex)),
        };
        let fragment = find_section(file_content, ShaderStage::Fragment);
        let fragment_source = match fragment {
            Some(f) => f,
            None => return Err(ShaderError::MissingSection(ShaderStage::Fragment)),
        };
        Ok(OglShader { id, vertex_source, fragment_source })
    }

    /// The backend handle of this program.
    pub fn get_id(&self) -> (r: u32)
        ensures
            r == self.spec_id(),
    {
        self.id
    }

    /// The source of the vertex stage, from its section's newline on.
    pub fn vertex_source(&self) -> (r: &Vec<u8>)
        ensures
            r@ == self.spec_vertex_source(),
    {
        &self.vertex_source
    }

    /// The source of the fragment stage, from its section's newline on.
    pub fn fragment_source(&self) -> (r: &Vec<u8>)
        ensures
            r@ == self.spec_fragment_source(),
    {
        &self.fragment_source
    }
}

} // verus!
