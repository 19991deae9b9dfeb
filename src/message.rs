use vstd::prelude::*;

verus! {

/// One decoded record of the build tool's event stream. Only the fields that
/// the interpretation reads are kept; each is absent where the record does
/// not carry it.
#[derive(Debug, PartialEq, Eq)]
pub struct BuildMessage {
    /// What kind of event this is.
    pub reason: String,
    /// The package that emitted the event.
    pub package_id: Option<String>,
    /// Base names of the native libraries a build script linked against.
    pub linked_libs: Option<Vec<String>>,
    /// Directories a build script named for finding those libraries.
    pub linked_paths: Option<Vec<String>>,
    /// Path of the executable an artifact event produced.
    pub executable: Option<String>,
    /// Paths of the files an artifact event produced.
    pub filenames: Option<Vec<String>>,
}

/// The views of a vector of strings.
pub open spec fn strs(v: Vec<String>) -> Seq<Seq<char>> {
    v@.map_values(|s: String| s@)
}

/// The event kind that reports a compiled artifact.
pub open spec fn artifact_reason() -> Seq<char> {
    "compiler-artifact"@
}

/// The event kind that reports a finished build script.
pub open spec fn build_script_reason() -> Seq<char> {
    "build-script-executed"@
}

/// `m` reports the artifact of the package `pkg`.
pub open spec fn is_artifact_of(m: BuildMessage, pkg: Seq<char>) -> bool {
    &&& m.reason@ == artifact_reason()
    &&& m.package_id matches Some(p)
    &&& p@ == pkg
}

/// `m` is a build-script event of a known package that linked at least one
/// native library.
pub open spec fn declares_libraries(m: BuildMessage) -> bool {
    &&& m.reason@ == build_script_reason()
    &&& m.package_id is Some
    &&& m.linked_libs matches Some(libs)
    &&& libs@.len() > 0
}

/// Whether `v` holds a string equal to `s`.
pub(crate) fn contains_str(v: &Vec<String>, s: &String) -> (r: bool)
    ensures
        r == strs(*v).contains(s@),
{
    let mut j: usize = 0;
    while j < v.len()
        invariant
            j <= v@.len(),
            forall|k: int| 0 <= k < j ==> strs(*v)[k] != s@,
        decreases v@.len() - j,
    {
        assert(strs(*v)[j as int] == v@[j as int]@);
        if v[j] == *s {
            return true;
        }
        j = j + 1;
    }
    false
}

/// The lines of `t` as half-open byte ranges, scanning from index `j` with
/// the current line begun at `start`: a line ends before its line feed, and
/// before a carriage return that directly precedes that line feed; a last
/// line without a line feed counts where it is not empty.
pub open spec fn lines_scan(t: Seq<u8>, start: int, j: int) -> Seq<(int, int)>
    decreases t.len() - j,
{
    if j >= t.len() {
        if start < t.len() {
            seq![(start, t.len() as int)]
        } else {
            Seq::empty()
        }
    } else if t[j] == 10u8 {
        let end = if j > start && t[j - 1] == 13u8 {
            j - 1
        } else {
            j
        };
        seq![(start, end)] + lines_scan(t, j + 1, j + 1)
    } else {
        lines_scan(t, start, j + 1)
    }
}

/// The views of a list of byte ranges.
pub open spec fn spans(v: Vec<(usize, usize)>) -> Seq<(int, int)> {
    v@.map_values(|p: (usize, usize)| (p.0 as int, p.1 as int))
}

/// Splits the event stream `text` into its lines, one record each: the byte
/// range of every line, in order.
pub fn line_spans(text: &[u8]) -> (r: Vec<(usize, usize)>)
    ensures
        spans(r) == lines_scan(text@, 0, 0),
{
    let mut r: Vec<(usize, usize)> = Vec::new();
    let mut start: usize = 0;
    let mut i: usize = 0;
    assert(spans(r) =~= Seq::empty());
    while i < text.len()
        invariant
            start <= i <= text@.len(),
            lines_scan(text@, 0, 0) == spans(r) + lines_scan(text@, start as int, i as int),
        decreases text@.len() - i,
    {
        if text[i] == 10u8 {
            let end = if i > start && text[i - 1] == 13u8 {
                i - 1
            } else {
                i
            };
            let ghost before = r;
            r.push((start, end));
            assert(spans(r) =~= spans(before).push((start as int, end as int)));
            assert(spans(r) + lines_scan(text@, i + 1, i + 1) =~= spans(before) + (seq![
                (start as int, end as int),
            ] + lines_scan(text@, i + 1, i + 1)));
            start = i + 1;
        }
        i = i + 1;
    }
    if start < text.len() {
        let ghost before = r;
        r.push((start, text.len()));
        assert(spans(r) =~= spans(before).push((start as int, text@.len() as int)));
        assert(spans(r) =~= spans(before) + lines_scan(text@, start as int, i as int));
    } else {
        assert(spans(r) =~= spans(r) + lines_scan(text@, start as int, i as int));
    }
    r
}

} // verus!
