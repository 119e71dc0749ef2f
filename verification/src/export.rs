//! Export choices: map modes, district marker modes, output formats and
//! output paths, and the texts of an export frame.
use vstd::prelude::*;
use crate::model::{lemma_trim_idempotent, texts};
use crate::terrain::split_pieces;
use crate::text::{chars_of, spec_trim, string_of, trim, trim_bounds};

verus! {

/// How the map is coloured.
#[derive(Debug, Clone, Copy, PartialEq, Eq, Hash, Structural)]
pub enum MapMode {
    Colour,
    Planning,
    Contour,
}

pub open spec fn spec_mode_index(m: MapMode) -> u8 {
    match m {
        MapMode::Colour => 0,
        MapMode::Planning => 1,
        MapMode::Contour => 2,
    }
}

/// Index 1 is planning, 2 is contour; every other index is colour.
pub open spec fn spec_mode_from_index(i: u8) -> MapMode {
    if i == 1 {
        MapMode::Planning
    } else if i == 2 {
        MapMode::Contour
    } else {
        MapMode::Colour
    }
}

pub open spec fn spec_mode_label(m: MapMode) -> Seq<char> {
    match m {
        MapMode::Colour => "Colour"@,
        MapMode::Planning => "Planning"@,
        MapMode::Contour => "Contour"@,
    }
}

impl MapMode {
    pub fn index(self) -> (i: u8)
        ensures
            i == spec_mode_index(self),
    {
        match self {
            MapMode::Colour => 0,
            MapMode::Planning => 1,
            MapMode::Contour => 2,
        }
    }

    pub fn from_index(index: u8) -> (m: Self)
        ensures
            m == spec_mode_from_index(index),
    {
        match index {
            1 => MapMode::Planning,
            2 => MapMode::Contour,
            _ => MapMode::Colour,
        }
    }

    pub fn label(self) -> (s: &'static str)
        ensures
            s@ == spec_mode_label(self),
    {
        match self {
            MapMode::Colour => "Colour",
            MapMode::Planning => "Planning",
            MapMode::Contour => "Contour",
        }
    }
}

impl Default for MapMode {
    fn default() -> (m: Self)
        ensures
            m == MapMode::Colour,
    {
        MapMode::Colour
    }
}

/// A mode read back from its index is the mode; an index below three read
/// as a mode gives the index back.
pub proof fn law_mode_index_round_trip(m: MapMode, i: u8)
    ensures
        spec_mode_from_index(spec_mode_index(m)) == m,
        i < 3 ==> spec_mode_index(spec_mode_from_index(i)) == i,
{
}

/// How a district is marked.
#[derive(Debug, Clone, Copy, PartialEq, Eq, Structural)]
pub enum DistrictMode {
    Badge,
    Halo,
    Label,
    Outline,
}

pub open spec fn spec_district_mode_label(m: DistrictMode) -> Seq<char> {
    match m {
        DistrictMode::Badge => "Badge"@,
        DistrictMode::Halo => "Halo"@,
        DistrictMode::Label => "Label"@,
        DistrictMode::Outline => "Outline"@,
    }
}

pub fn district_mode_label(mode: DistrictMode) -> (s: &'static str)
    ensures
        s@ == spec_district_mode_label(mode),
{
    match mode {
        DistrictMode::Badge => "Badge",
        DistrictMode::Halo => "Halo",
        DistrictMode::Label => "Label",
        DistrictMode::Outline => "Outline",
    }
}

/// The output formats.
#[derive(Debug, Clone, Copy, PartialEq, Eq, Structural)]
pub enum ExportKind {
    Svg,
    Png,
    Pdf,
}

pub open spec fn spec_extension(kind: ExportKind) -> Seq<char> {
    match kind {
        ExportKind::Svg => "svg"@,
        ExportKind::Png => "png"@,
        ExportKind::Pdf => "pdf"@,
    }
}

/// No character of `s` separates path components on any platform: no `/`
/// and, for Windows, no backslash.
pub open spec fn separator_free(s: Seq<char>) -> bool {
    forall|i: int| 0 <= i < s.len() ==> s[i] != '/' && s[i] != '\\'
}

/// The file extension of an output format.
pub fn export_extension(kind: ExportKind) -> (s: &'static str)
    ensures
        s@ == spec_extension(kind),
        separator_free(s@),
{
    proof {
        reveal_strlit("svg");
        reveal_strlit("png");
        reveal_strlit("pdf");
    }
    match kind {
        ExportKind::Svg => "svg",
        ExportKind::Png => "png",
        ExportKind::Pdf => "pdf",
    }
}

/// What `Path::with_extension` gives for a path and an extension, by the
/// path syntax of the platform the crate is built for.
pub uninterp spec fn with_extension(path: Seq<char>, extension: Seq<char>) -> Seq<char>;

/// Whether `Path`'s equality (which compares components) holds between two
/// paths, by the path syntax of the platform the crate is built for.
pub uninterp spec fn same_path(a: Seq<char>, b: Seq<char>) -> bool;

/// Wraps `Path::with_extension` on a path given as text; the result is the
/// named value. The path is built from valid text, so reading it back as
/// text loses nothing. `PathBuf::set_extension`, which it uses, panics on an
/// extension holding a path separator, so none is admitted.
#[verifier::external_body]
fn path_with_extension(path: &str, extension: &str) -> (r: String)
    requires
        separator_free(extension@),
    ensures
        r@ == with_extension(path@, extension@),
{
    std::path::Path::new(path).with_extension(extension).to_string_lossy().into_owned()
}

/// Wraps `Path`'s `==` on two paths given as text; the result is the named
/// value.
#[verifier::external_body]
fn path_eq(a: &str, b: &str) -> (r: bool)
    ensures
        r == same_path(a@, b@),
{
    std::path::Path::new(a) == std::path::Path::new(b)
}

/// The output path for an export: the input with the format's extension;
/// should that equal the input, the extension is set once more.
pub fn export_path(input: &str, kind: ExportKind) -> (r: String)
    ensures
        ({
            let ext = spec_extension(kind);
            let first = with_extension(input@, ext);
            r@ == if same_path(first, input@) {
                with_extension(first, ext)
            } else {
                first
            }
        }),
{
    let ext = export_extension(kind);
    let output = path_with_extension(input, ext);
    if path_eq(output.as_str(), input) {
        path_with_extension(output.as_str(), ext)
    } else {
        output
    }
}

/// The default output path of the command line: the input with the
/// format's extension.
pub fn default_output_path(input: &str, kind: ExportKind) -> (r: String)
    ensures
        r@ == with_extension(input@, spec_extension(kind)),
{
    path_with_extension(input, export_extension(kind))
}

/// The pieces of a text between commas that are not blank, trimmed.
pub open spec fn non_blank_trimmed(ps: Seq<Seq<char>>) -> Seq<Seq<char>>
    decreases ps.len(),
{
    if ps.len() == 0 {
        Seq::empty()
    } else if spec_trim(ps.last()).len() > 0 {
        non_blank_trimmed(ps.drop_last()).push(spec_trim(ps.last()))
    } else {
        non_blank_trimmed(ps.drop_last())
    }
}

/// The four coordinate texts of a frame `min_x,min_y,max_x,max_y`: the
/// first four non-blank comma-separated fields of the trimmed text,
/// trimmed; none when there are fewer than four.
pub open spec fn spec_frame_fields(value: Seq<char>) -> Option<Seq<Seq<char>>> {
    let fields = non_blank_trimmed(split_pieces(spec_trim(value), |c: char| c == ','));
    if fields.len() >= 4 {
        Some(fields.take(4))
    } else {
        None
    }
}

proof fn lemma_non_blank_trimmed(ps: Seq<Seq<char>>)
    ensures
        forall|k: int|
            0 <= k < non_blank_trimmed(ps).len() ==> #[trigger] non_blank_trimmed(ps)[k].len() > 0
                && spec_trim(non_blank_trimmed(ps)[k]) == non_blank_trimmed(ps)[k],
    decreases ps.len(),
{
    if ps.len() > 0 {
        lemma_non_blank_trimmed(ps.drop_last());
        lemma_trim_idempotent(ps.last());
        let n = non_blank_trimmed(ps);
        let m = non_blank_trimmed(ps.drop_last());
        assert forall|k: int| 0 <= k < n.len() implies #[trigger] n[k].len() > 0 && spec_trim(n[k])
            == n[k] by {
            if k < m.len() {
                assert(n[k] == m[k]);
            }
        }
    }
}

/// A frame has exactly four fields, each non-empty and without white space
/// at either end.
pub proof fn law_frame_fields_trimmed(value: Seq<char>)
    ensures
        spec_frame_fields(value) matches Some(f) ==> {
            &&& f.len() == 4
            &&& forall|k: int| 0 <= k < 4 ==> #[trigger] f[k].len() > 0 && spec_trim(f[k]) == f[k]
        },
{
    let fields = non_blank_trimmed(split_pieces(spec_trim(value), |c: char| c == ','));
    lemma_non_blank_trimmed(split_pieces(spec_trim(value), |c: char| c == ','));
    if fields.len() >= 4 {
        let f = fields.take(4);
        assert forall|k: int| 0 <= k < 4 implies #[trigger] f[k].len() > 0 && spec_trim(f[k]) == f[k] by {
            assert(f[k] == fields[k]);
        }
    }
}

proof fn lemma_split_len_comma(s: Seq<char>)
    ensures
        split_pieces(s, |c: char| c == ',').len() >= 1,
    decreases s.len(),
{
    if s.len() > 0 {
        lemma_split_len_comma(s.drop_last());
    }
}

/// The coordinate texts of an export frame given on the command line, in
/// the order `min_x, min_y, max_x, max_y`; reading them as numbers is left
/// to the caller. No text gives no frame.
pub fn parse_frame(value: Option<&str>) -> (r: Option<Vec<String>>)
    ensures
        match value {
            None => r is None,
            Some(v) => match spec_frame_fields(v@) {
                Some(f) => r is Some && texts(r->0@) == f,
                None => r is None,
            },
        },
{
    let value = match value {
        Some(v) => v,
        None => return None,
    };
    let trimmed = trim(value);
    let v = chars_of(trimmed.as_str());
    let ghost sep = |c: char| c == ',';
    let mut out: Vec<String> = Vec::new();
    let mut start: usize = 0;
    let mut i: usize = 0;
    assert(v@.take(0) =~= Seq::<char>::empty());
    while i < v.len()
        invariant
            start <= i <= v.len(),
            sep == (|c: char| c == ','),
            split_pieces(v@.take(i as int), sep).last() == v@.subrange(start as int, i as int),
            non_blank_trimmed(split_pieces(v@.take(i as int), sep).drop_last()) == texts(out@),
        decreases v.len() - i,
    {
        let ghost before = split_pieces(v@.take(i as int), sep);
        proof {
            lemma_split_len_comma(v@.take(i as int));
        }
        assert(v@.take(i + 1).drop_last() =~= v@.take(i as int));
        assert(v@.take(i + 1).last() == v@[i as int]);
        let c = v[i];
        if c == ',' {
            let ghost after = before.push(Seq::empty());
            assert(after.drop_last() =~= before);
            assert(before =~= before.drop_last().push(before.last()));
            let piece = string_of(&v, start, i);
            let pv = chars_of(piece.as_str());
            let (a, b) = trim_bounds(&pv);
            if a < b {
                let field = string_of(&pv, a, b);
                let ghost old_out = out@;
                out.push(field);
                assert(texts(out@) =~= texts(old_out).push(field@));
            }
            start = i + 1;
            assert(v@.subrange(start as int, i + 1) =~= Seq::<char>::empty());
        } else {
            let ghost after = before.update(before.len() - 1, before.last().push(c));
            assert(after.drop_last() =~= before.drop_last());
            assert(v@.subrange(start as int, i + 1) =~= v@.subrange(start as int, i as int).push(c));
        }
        i = i + 1;
    }
    proof {
        lemma_split_len_comma(v@.take(i as int));
    }
    let ghost all = split_pieces(v@.take(i as int), sep);
    assert(all =~= all.drop_last().push(all.last()));
    let piece = string_of(&v, start, i);
    let pv = chars_of(piece.as_str());
    let (a, b) = trim_bounds(&pv);
    if a < b {
        let field = string_of(&pv, a, b);
        let ghost old_out = out@;
        out.push(field);
        assert(texts(out@) =~= texts(old_out).push(field@));
    }
    assert(v@.take(v.len() as int) =~= v@);
    if out.len() < 4 {
        return None;
    }
    let mut fields: Vec<String> = Vec::new();
    let mut k: usize = 0;
    while k < 4
        invariant
            k <= 4 <= out.len(),
            texts(fields@) =~= texts(out@).take(k as int),
        decreases 4 - k,
    {
        let f = out[k].clone();
        let ghost old_fields = fields@;
        fields.push(f);
        assert(texts(fields@) =~= texts(old_fields).push(out@[k as int]@));
        assert(texts(out@).take(k + 1) =~= texts(out@).take(k as int).push(out@[k as int]@));
        k = k + 1;
    }
    Some(fields)
}

/// Each output format writes files with its own extension: `svg`, `png`
/// and `pdf`, no two alike.
pub proof fn law_extension_per_format(a: ExportKind, b: ExportKind)
    ensures
        a is Svg ==> spec_extension(a) == "svg"@,
        a is Png ==> spec_extension(a) == "png"@,
        a is Pdf ==> spec_extension(a) == "pdf"@,
        a != b ==> spec_extension(a) != spec_extension(b),
{
    reveal_strlit("svg");
    reveal_strlit("png");
    reveal_strlit("pdf");
    assert("svg"@[0] == 's' && "png"@[0] == 'p' && "pdf"@[0] == 'p' && "png"@[1] == 'n'
        && "pdf"@[1] == 'd');
}

/// Map modes and district marks are shown by their names, and no two
/// share one.
pub proof fn law_mode_names(m: MapMode, n: MapMode, d: DistrictMode, e: DistrictMode)
    ensures
        m is Colour ==> spec_mode_label(m) == "Colour"@,
        m is Planning ==> spec_mode_label(m) == "Planning"@,
        m is Contour ==> spec_mode_label(m) == "Contour"@,
        m != n ==> spec_mode_label(m) != spec_mode_label(n),
        d is Badge ==> spec_district_mode_label(d) == "Badge"@,
        d is Halo ==> spec_district_mode_label(d) == "Halo"@,
        d is Label ==> spec_district_mode_label(d) == "Label"@,
        d is Outline ==> spec_district_mode_label(d) == "Outline"@,
        d != e ==> spec_district_mode_label(d) != spec_district_mode_label(e),
{
    reveal_strlit("Colour");
    reveal_strlit("Planning");
    reveal_strlit("Contour");
    reveal_strlit("Badge");
    reveal_strlit("Halo");
    reveal_strlit("Label");
    reveal_strlit("Outline");
    assert("Colour"@.len() == 6 && "Planning"@.len() == 8 && "Contour"@.len() == 7);
    assert("Badge"@.len() == 5 && "Halo"@.len() == 4 && "Label"@.len() == 5 && "Outline"@.len() == 7);
    assert("Badge"@[0] == 'B' && "Label"@[0] == 'L');
}

} // verus!
