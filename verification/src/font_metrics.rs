//! Glyph metrics and text measurement.
//!
//! A [`Typeface`] holds the per-character advance widths of one loaded font,
//! in thousandths of a pixel at the fixed design size the badges use
//! (11 px). The advance table is extracted from real font data when the
//! process starts (font parsing works in fractional pixels, which stay
//! outside this library; the extraction converts them to integer
//! milli-pixels). A [`TypefaceRegistry`] is the immutable set of loaded
//! typefaces, built once at startup and passed by shared reference into the
//! width resolver.

use vstd::prelude::*;

use crate::text::{contains_seq, contains_sub, ascii_lowercase, lower_seq};

verus! {

/// Largest advance width a single glyph may carry, in milli-pixels
/// (1000 px). Together with [`MAX_TEXT_LEN`] this keeps every width sum
/// comfortably inside the fixed-width integers the layout engines use.
pub const MAX_ADVANCE_MILLI: u32 = 1_000_000;

/// Longest text that can be measured. This is a machine limit, not a
/// design limit: it keeps the milli-pixel sum inside `u64` and the rounded
/// pixel width inside `u32`.
pub const MAX_TEXT_LEN: usize = 4_000_000;

/// Minimum pixel width reported for any text, so that empty or very thin
/// strings never collapse the surrounding badge geometry.
pub const MIN_TEXT_WIDTH_PX: u32 = 5;

/// The advance width of one character, in milli-pixels at design size.
pub struct CharAdvance {
    pub ch: char,
    pub milli: u32,
}

/// One loaded font: a canonical lowercase name (for example "verdana"),
/// a per-character advance table, and a fallback advance for characters
/// the table does not list.
pub struct Typeface {
    pub name: String,
    pub advances: Vec<CharAdvance>,
    pub fallback_milli: u32,
}

/// The immutable set of loaded typefaces. Resolution walks the faces in
/// their stored order, so lookup is deterministic.
pub struct TypefaceRegistry {
    pub faces: Vec<Typeface>,
}

impl Typeface {
    /// The canonical name is already lowercase (so it can match a
    /// lowercased query), and every advance the face can report fits the
    /// per-glyph bound.
    pub open spec fn wf(self) -> bool {
        &&& lower_seq(self.name@) == self.name@
        &&& self.fallback_milli <= MAX_ADVANCE_MILLI
        &&& forall|i: int|
            0 <= i < self.advances@.len() ==> (#[trigger] self.advances@[i]).milli
                <= MAX_ADVANCE_MILLI
    }
}

impl TypefaceRegistry {
    /// At least one fallback face is always loaded, every face is well
    /// formed, and each face is identified by its canonical name: no two
    /// faces share one.
    pub open spec fn wf(self) -> bool {
        &&& self.faces@.len() >= 1
        &&& forall|i: int| 0 <= i < self.faces@.len() ==> (#[trigger] self.faces@[i]).wf()
        &&& forall|i: int, j: int|
            0 <= i < j < self.faces@.len() ==> (#[trigger] self.faces@[i]).name@
                != (#[trigger] self.faces@[j]).name@
    }
}

/// The advance width of `c` under the entries of `advances` from index `i`
/// on: the first entry for `c` wins, and `fallback` applies when none is
/// listed.
pub open spec fn advance_from(advances: Seq<CharAdvance>, i: int, c: char, fallback: u32) -> u32
    decreases advances.len() - i,
{
    if i < 0 || i >= advances.len() {
        fallback
    } else if advances[i].ch == c {
        advances[i].milli
    } else {
        advance_from(advances, i + 1, c, fallback)
    }
}

/// The advance width of `c` in face `t`, in milli-pixels.
pub open spec fn advance_of(t: Typeface, c: char) -> u32 {
    advance_from(t.advances@, 0, c, t.fallback_milli)
}

/// The measured width of `text` in face `t`: the sum of each character's
/// advance width, in milli-pixels.
pub open spec fn measure_milli(t: Typeface, text: Seq<char>) -> int
    decreases text.len(),
{
    if text.len() == 0 {
        0
    } else {
        measure_milli(t, text.drop_last()) + advance_of(t, text.last())
    }
}

/// Pixel width from a milli-pixel measurement: rounded up to the next whole
/// pixel (never truncated — undersizing clips text), then clamped to the
/// minimum floor.
pub open spec fn px_from_milli(m: int) -> int {
    let px = (m + 999) / 1000;
    if px < MIN_TEXT_WIDTH_PX {
        MIN_TEXT_WIDTH_PX as int
    } else {
        px
    }
}

/// Index of the first face from `i` on whose canonical name is exactly the
/// lowercased query, or -1.
pub open spec fn first_exact_from(faces: Seq<Typeface>, lq: Seq<char>, i: int) -> int
    decreases faces.len() - i,
{
    if i < 0 || i >= faces.len() {
        -1
    } else if faces[i].name@ == lq {
        i
    } else {
        first_exact_from(faces, lq, i + 1)
    }
}

/// Index of the first face from `i` on whose canonical name occurs inside
/// the lowercased query (this accepts CSS-style family lists such as
/// "verdana,geneva,sans-serif"), or -1.
pub open spec fn first_substring_from(faces: Seq<Typeface>, lq: Seq<char>, i: int) -> int
    decreases faces.len() - i,
{
    if i < 0 || i >= faces.len() {
        -1
    } else if contains_seq(lq, faces[i].name@) {
        i
    } else {
        first_substring_from(faces, lq, i + 1)
    }
}

/// The face a font-family query resolves to: (a) exact case-insensitive
/// name match, else (b) the first face whose name occurs in the lowercased
/// query, else (c) the first loaded face as the fallback.
pub open spec fn resolve_idx(faces: Seq<Typeface>, family: Seq<char>) -> int {
    let lq = lower_seq(family);
    let e = first_exact_from(faces, lq, 0);
    let s = first_substring_from(faces, lq, 0);
    if e >= 0 {
        e
    } else if s >= 0 {
        s
    } else {
        0
    }
}

/// The pixel width of `text` when measured against the face that `family`
/// resolves to in `faces`.
pub open spec fn px_width_of(faces: Seq<Typeface>, family: Seq<char>, text: Seq<char>) -> int {
    px_from_milli(measure_milli(faces[resolve_idx(faces, family)], text))
}

proof fn lemma_first_exact_range(faces: Seq<Typeface>, lq: Seq<char>, i: int)
    requires
        0 <= i <= faces.len(),
    ensures
        first_exact_from(faces, lq, i) == -1 || i <= first_exact_from(faces, lq, i)
            < faces.len(),
    decreases faces.len() - i,
{
    if i < faces.len() && faces[i].name@ != lq {
        lemma_first_exact_range(faces, lq, i + 1);
    }
}

proof fn lemma_first_substring_range(faces: Seq<Typeface>, lq: Seq<char>, i: int)
    requires
        0 <= i <= faces.len(),
    ensures
        first_substring_from(faces, lq, i) == -1 || i <= first_substring_from(faces, lq, i)
            < faces.len(),
    decreases faces.len() - i,
{
    if i < faces.len() && !contains_seq(lq, faces[i].name@) {
        lemma_first_substring_range(faces, lq, i + 1);
    }
}

/// The resolved index is always a valid index of the face list.
pub proof fn lemma_resolve_idx_in_bounds(faces: Seq<Typeface>, family: Seq<char>)
    requires
        faces.len() >= 1,
    ensures
        0 <= resolve_idx(faces, family) < faces.len(),
{
    lemma_first_exact_range(faces, lower_seq(family), 0);
    lemma_first_substring_range(faces, lower_seq(family), 0);
}

impl TypefaceRegistry {
    /// Resolves a CSS-like font-family list to one loaded typeface, per the
    /// three-step rule of [`resolve_idx`]. Resolution cannot fail: an
    /// unrecognized family silently falls back to the first loaded face.
    pub fn resolve_font(&self, family: &str) -> (t: &Typeface)
        requires
            self.wf(),
        ensures
            *t == self.faces@[resolve_idx(self.faces@, family@)],
    {
        proof {
            lemma_resolve_idx_in_bounds(self.faces@, family@);
        }
        let lowered = ascii_lowercase(family);
        let n = self.faces.len();
        let mut i: usize = 0;
        while i < n
            invariant
                i <= n,
                n == self.faces@.len(),
                lowered@ == lower_seq(family@),
                first_exact_from(self.faces@, lowered@, 0) == first_exact_from(
                    self.faces@,
                    lowered@,
                    i as int,
                ),
            decreases n - i,
        {
            if self.faces[i].name == lowered {
                return &self.faces[i];
            }
            i = i + 1;
        }
        let mut j: usize = 0;
        while j < n
            invariant
                j <= n,
                n == self.faces@.len(),
                lowered@ == lower_seq(family@),
                first_exact_from(self.faces@, lowered@, 0) == -1,
                first_substring_from(self.faces@, lowered@, 0) == first_substring_from(
                    self.faces@,
                    lowered@,
                    j as int,
                ),
            decreases n - j,
        {
            if contains_sub(lowered.as_str(), self.faces[j].name.as_str()) {
                return &self.faces[j];
            }
            j = j + 1;
        }
        &self.faces[0]
    }
}

proof fn lemma_measure_milli_bound(t: Typeface, text: Seq<char>)
    requires
        t.wf(),
    ensures
        0 <= measure_milli(t, text) <= text.len() * MAX_ADVANCE_MILLI,
    decreases text.len(),
{
    if text.len() > 0 {
        lemma_measure_milli_bound(t, text.drop_last());
        lemma_advance_bound(t, text.last());
        assert(text.drop_last().len() * MAX_ADVANCE_MILLI + MAX_ADVANCE_MILLI == text.len()
            * MAX_ADVANCE_MILLI) by (nonlinear_arith)
            requires text.len() >= 1 && text.drop_last().len() == text.len() - 1;
    }
}

proof fn lemma_advance_from_bound(advances: Seq<CharAdvance>, i: int, c: char, fallback: u32)
    requires
        fallback <= MAX_ADVANCE_MILLI,
        forall|k: int| 0 <= k < advances.len() ==> (#[trigger] advances[k]).milli
            <= MAX_ADVANCE_MILLI,
    ensures
        advance_from(advances, i, c, fallback) <= MAX_ADVANCE_MILLI,
    decreases advances.len() - i,
{
    if 0 <= i < advances.len() && advances[i].ch != c {
        lemma_advance_from_bound(advances, i + 1, c, fallback);
    }
}

proof fn lemma_advance_bound(t: Typeface, c: char)
    requires
        t.wf(),
    ensures
        advance_of(t, c) <= MAX_ADVANCE_MILLI,
{
    lemma_advance_from_bound(t.advances@, 0, c, t.fallback_milli);
}

/// The advance width of one character in face `t`, in milli-pixels: the
/// first table entry for the character, or the face's fallback advance.
pub fn char_advance_milli(t: &Typeface, c: char) -> (r: u32)
    ensures
        r == advance_of(*t, c),
{
    let n = t.advances.len();
    let mut i: usize = 0;
    while i < n
        invariant
            i <= n,
            n == t.advances@.len(),
            advance_of(*t, c) == advance_from(t.advances@, i as int, c, t.fallback_milli),
        decreases n - i,
    {
        if t.advances[i].ch == c {
            return t.advances[i].milli;
        }
        i = i + 1;
    }
    t.fallback_milli
}

/// Measures `text` against face `t`: the sum of per-character advance
/// widths, in milli-pixels.
pub fn measure_text_milli(t: &Typeface, text: &str) -> (r: u64)
    requires
        t.wf(),
        text@.len() <= MAX_TEXT_LEN,
    ensures
        r == measure_milli(*t, text@),
{
    let len = text.unicode_len();
    let mut sum: u64 = 0;
    let mut i: usize = 0;
    while i < len
        invariant
            i <= len,
            len == text@.len() <= MAX_TEXT_LEN,
            t.wf(),
            sum == measure_milli(*t, text@.take(i as int)),
        decreases len - i,
    {
        proof {
            lemma_measure_milli_bound(*t, text@.take(i as int));
            lemma_advance_bound(*t, text@[i as int]);
            assert(i * MAX_ADVANCE_MILLI <= MAX_TEXT_LEN * MAX_ADVANCE_MILLI)
                by (nonlinear_arith)
                requires 0 <= i <= MAX_TEXT_LEN;
        }
        let c = text.get_char(i);
        let a = char_advance_milli(t, c);
        sum = sum + a as u64;
        proof {
            assert(text@.take(i + 1).drop_last() =~= text@.take(i as int));
            assert(text@.take(i + 1).last() == text@[i as int]);
        }
        i = i + 1;
    }
    proof {
        assert(text@.take(len as int) =~= text@);
    }
    sum
}

/// The integer pixel width of `text` under the typeface that `font_family`
/// resolves to: measured from the face's advance table, rounded up to the
/// next whole pixel, then clamped to the 5 px minimum floor.
pub fn get_text_width_px(text: &str, font_family: &str, registry: &TypefaceRegistry) -> (r: u32)
    requires
        registry.wf(),
        text@.len() <= MAX_TEXT_LEN,
    ensures
        r == px_width_of(registry.faces@, font_family@, text@),
{
    proof {
        lemma_resolve_idx_in_bounds(registry.faces@, font_family@);
    }
    let face = registry.resolve_font(font_family);
    let milli = measure_text_milli(face, text);
    proof {
        lemma_measure_milli_bound(*face, text@);
        assert(text@.len() * MAX_ADVANCE_MILLI <= MAX_TEXT_LEN * MAX_ADVANCE_MILLI)
            by (nonlinear_arith)
            requires 0 <= text@.len() <= MAX_TEXT_LEN;
    }
    let px = (milli + 999) / 1000;
    if px < MIN_TEXT_WIDTH_PX as u64 {
        MIN_TEXT_WIDTH_PX
    } else {
        px as u32
    }
}

// ---------- laws of the width resolver ----------

/// Law: the minimum floor holds — for any text and family, the reported
/// pixel width is at least 5 px, and the empty text reports exactly the
/// 5 px floor.
pub proof fn lemma_width_floor(faces: Seq<Typeface>, family: Seq<char>, text: Seq<char>)
    requires
        faces.len() >= 1,
        forall|i: int| 0 <= i < faces.len() ==> (#[trigger] faces[i]).wf(),
    ensures
        px_width_of(faces, family, text) >= 5,
        text.len() == 0 ==> px_width_of(faces, family, text) == 5,
{
    lemma_resolve_idx_in_bounds(faces, family);
    lemma_measure_milli_bound(faces[resolve_idx(faces, family)], text);
}

proof fn lemma_measure_milli_concat(t: Typeface, a: Seq<char>, b: Seq<char>)
    ensures
        measure_milli(t, a + b) == measure_milli(t, a) + measure_milli(t, b),
    decreases b.len(),
{
    if b.len() == 0 {
        assert(a + b =~= a);
    } else {
        lemma_measure_milli_concat(t, a, b.drop_last());
        assert((a + b).drop_last() =~= a + b.drop_last());
        assert((a + b).last() == b.last());
    }
}

/// Law: pixel width is monotonic non-decreasing under repetition — doubling
/// a text never reports a smaller width. (More generally, measurement is
/// additive over concatenation, and the ceiling-and-floor conversion is
/// monotone.)
pub proof fn lemma_width_monotonic_double(faces: Seq<Typeface>, family: Seq<char>, s: Seq<char>)
    requires
        faces.len() >= 1,
        forall|i: int| 0 <= i < faces.len() ==> (#[trigger] faces[i]).wf(),
    ensures
        px_width_of(faces, family, s) <= px_width_of(faces, family, s + s),
{
    lemma_resolve_idx_in_bounds(faces, family);
    let t = faces[resolve_idx(faces, family)];
    lemma_measure_milli_concat(t, s, s);
    lemma_measure_milli_bound(t, s);
}

/// Law: font resolution is case-insensitive — two family queries that agree
/// after ASCII lowercasing resolve to the same typeface, whatever the
/// registry holds. (Resolution consults nothing of the query but its
/// lowercased characters.)
pub proof fn lemma_resolution_case_insensitive(
    faces: Seq<Typeface>,
    family1: Seq<char>,
    family2: Seq<char>,
)
    requires
        lower_seq(family1) == lower_seq(family2),
    ensures
        resolve_idx(faces, family1) == resolve_idx(faces, family2),
{
}

// ---------- construction ----------

impl Typeface {
    /// Builds one typeface from its canonical name and advance table,
    /// validating what measurement and resolution rely on. Returns `None`
    /// exactly when the name is not already lowercase, or some advance (or
    /// the fallback) exceeds [`MAX_ADVANCE_MILLI`].
    pub fn new(name: String, advances: Vec<CharAdvance>, fallback_milli: u32) -> (r: Option<
        Typeface,
    >)
        ensures
            r is Some <==> (lower_seq(name@) == name@ && fallback_milli <= MAX_ADVANCE_MILLI
                && forall|i: int|
                0 <= i < advances@.len() ==> (#[trigger] advances@[i]).milli
                    <= MAX_ADVANCE_MILLI),
            r is Some ==> r->0.wf() && r->0.name == name && r->0.advances == advances
                && r->0.fallback_milli == fallback_milli,
    {
        let lowered = ascii_lowercase(name.as_str());
        if !(lowered == name) {
            return None;
        }
        if fallback_milli > MAX_ADVANCE_MILLI {
            return None;
        }
        let n = advances.len();
        let mut i: usize = 0;
        while i < n
            invariant
                i <= n,
                n == advances@.len(),
                forall|k: int| 0 <= k < i ==> (#[trigger] advances@[k]).milli
                    <= MAX_ADVANCE_MILLI,
            decreases n - i,
        {
            if advances[i].milli > MAX_ADVANCE_MILLI {
                return None;
            }
            i = i + 1;
        }
        Some(Typeface { name, advances, fallback_milli })
    }
}

impl TypefaceRegistry {
    /// Builds the registry from already-validated faces. Returns `None`
    /// exactly when the face list is empty — at least one fallback face
    /// must always be loaded, so that runtime lookups cannot fail — or
    /// when two faces share a canonical name, which would leave a face
    /// unreachable by exact match. A missing or unloadable font is a fatal
    /// configuration error at startup, never a per-request error.
    pub fn new(faces: Vec<Typeface>) -> (r: Option<TypefaceRegistry>)
        requires
            forall|i: int| 0 <= i < faces@.len() ==> (#[trigger] faces@[i]).wf(),
        ensures
            r is Some <==> (faces@.len() >= 1 && forall|i: int, j: int|
                0 <= i < j < faces@.len() ==> (#[trigger] faces@[i]).name@
                    != (#[trigger] faces@[j]).name@),
            r is Some ==> r->0.wf() && r->0.faces == faces,
    {
        if faces.len() == 0 {
            return None;
        }
        let n = faces.len();
        let mut i: usize = 0;
        while i < n
            invariant
                i <= n,
                n == faces@.len(),
                forall|a: int, b: int|
                    0 <= a < b < n && a < i ==> (#[trigger] faces@[a]).name@
                        != (#[trigger] faces@[b]).name@,
            decreases n - i,
        {
            let mut j: usize = i + 1;
            while j < n
                invariant
                    i < j <= n,
                    i < n == faces@.len(),
                    forall|b: int|
                        i < b < j ==> (#[trigger] faces@[b]).name@ != faces@[i as int].name@,
                decreases n - j,
            {
                if faces[i].name == faces[j].name {
                    return None;
                }
                j = j + 1;
            }
            i = i + 1;
        }
        Some(TypefaceRegistry { faces })
    }
}

} // verus!
