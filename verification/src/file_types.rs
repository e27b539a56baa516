//! Format classification: maps an input path (and, for directory-based vendor
//! formats, the extensions of the directory's entries) to a format family.

use vstd::prelude::*;

use crate::text::lower_char;
use crate::text::spec_lower;
use crate::text::spec_lower_char;
use crate::text::str_eq;

verus! {

/// The closed set of format families this library understands.
#[derive(Debug, Clone, Copy, PartialEq, Eq, Structural)]
pub enum SpectrumFileType {
    /// Text-based open peak-list format.
    MascotGenericFormat,
    /// XML-based open spectrum-interchange format.
    MzML,
    /// Vendor binary format, stored either as a single file or as a directory
    /// of auxiliary files.
    BrukerRaw,
    /// Anything else; never decoded.
    Unknown,
}

/// Index of the last `'.'` in `s`, or `-1` when `s` has none.
pub open spec fn spec_last_dot(s: Seq<char>) -> int
    decreases s.len(),
{
    if s.len() == 0 {
        -1
    } else if s.last() == '.' {
        s.len() - 1
    } else {
        spec_last_dot(s.drop_last())
    }
}

/// The final extension of a path: everything after the last `'.'`, or the
/// empty sequence when the path has no dot at all.
pub open spec fn spec_extension(s: Seq<char>) -> Seq<char> {
    if spec_last_dot(s) == -1 {
        Seq::empty()
    } else {
        s.subrange(spec_last_dot(s) + 1, s.len() as int)
    }
}

/// Whether some entry of `exts` equals `target` exactly (case-sensitive).
pub open spec fn spec_folder_contains(exts: Seq<String>, target: Seq<char>) -> bool {
    exists|j: int| 0 <= j < exts.len() && #[trigger] exts[j]@ == target
}

/// The classification rule: the lowercased final extension selects the format
/// directly; an unrecognized extension falls back to the directory check,
/// which recognizes the vendor layout by the joint presence of a binary-blob
/// entry and a columnar-table entry.
pub open spec fn spec_match_file_type(path: Seq<char>, folder_exts: Seq<String>) -> SpectrumFileType {
    let ext = spec_lower(spec_extension(path));
    if ext == "mgf"@ {
        SpectrumFileType::MascotGenericFormat
    } else if ext == "mzml"@ {
        SpectrumFileType::MzML
    } else if ext == "d"@ || ext == "ms2"@ {
        SpectrumFileType::BrukerRaw
    } else if spec_folder_contains(folder_exts, "bin"@) && spec_folder_contains(
        folder_exts,
        "parquet"@,
    ) {
        SpectrumFileType::BrukerRaw
    } else {
        SpectrumFileType::Unknown
    }
}

proof fn lemma_lower_char_dot(c: char)
    ensures
        (spec_lower_char(c) == '.') == (c == '.'),
{
}

proof fn lemma_lower_char_idempotent(c: char)
    ensures
        spec_lower_char(spec_lower_char(c)) == spec_lower_char(c),
{
}

proof fn lemma_last_dot_range(s: Seq<char>)
    ensures
        -1 <= spec_last_dot(s) < s.len(),
    decreases s.len(),
{
    if s.len() == 0 {
    } else if s.last() == '.' {
    } else {
        lemma_last_dot_range(s.drop_last());
    }
}

proof fn lemma_last_dot_lower(s: Seq<char>)
    ensures
        spec_last_dot(spec_lower(s)) == spec_last_dot(s),
    decreases s.len(),
{
    if s.len() == 0 {
    } else {
        lemma_last_dot_lower(s.drop_last());
        assert(spec_lower(s).last() == spec_lower_char(s.last()));
        lemma_lower_char_dot(s.last());
        assert(spec_lower(s).drop_last() =~= spec_lower(s.drop_last()));
    }
}

/// Classification is case-insensitive: lowercasing the path (so in
/// particular any uppercase variant of a supported extension) never changes
/// the format family it is classified into.
pub proof fn lemma_match_file_type_case_insensitive(path: Seq<char>, exts: Seq<String>)
    ensures
        spec_match_file_type(spec_lower(path), exts) == spec_match_file_type(path, exts),
{
    lemma_last_dot_lower(path);
    lemma_last_dot_range(path);
    let d = spec_last_dot(path);
    let e = spec_extension(path);
    if d == -1 {
        assert(spec_extension(spec_lower(path)) =~= spec_lower(e));
    } else {
        assert forall|i: int|
            0 <= i < path.len() - (d + 1) implies spec_extension(spec_lower(path))[i]
            == spec_lower(e)[i] by {
            assert(spec_extension(spec_lower(path))[i] == spec_lower_char(path[d + 1 + i]));
        }
        assert(spec_extension(spec_lower(path)) =~= spec_lower(e));
    }
    assert forall|i: int|
        0 <= i < e.len() implies spec_lower(spec_lower(e))[i] == spec_lower(e)[i] by {
        lemma_lower_char_idempotent(e[i]);
    }
    assert(spec_lower(spec_lower(e)) =~= spec_lower(e));
    assert(spec_lower(spec_extension(spec_lower(path))) == spec_lower(spec_extension(path)));
}

/// Position just after the last `'.'` of `path`, when there is one.
fn extension_start(path: &str) -> (r: Option<usize>)
    ensures
        match r {
            Some(st) => 1 <= st <= path@.len() && spec_last_dot(path@) == st - 1,
            None => spec_last_dot(path@) == -1,
        },
{
    let n = path.unicode_len();
    let mut i: usize = n;
    proof {
        assert(path@.take(n as int) =~= path@);
    }
    while i > 0
        invariant
            n == path@.len(),
            i <= n,
            spec_last_dot(path@) == spec_last_dot(path@.take(i as int)),
        decreases i,
    {
        if path.get_char(i - 1) == '.' {
            proof {
                assert(path@.take(i as int).last() == path@[i - 1]);
            }
            return Some(i);
        }
        proof {
            assert(path@.take(i as int).drop_last() =~= path@.take(i - 1));
        }
        i = i - 1;
    }
    proof {
        assert(path@.take(0) =~= Seq::<char>::empty());
    }
    None
}

/// Compares the ASCII-lowercased characters of `path` from `start` on with
/// `pattern`, character by character.
fn lowered_matches(path: &str, start: usize, pattern: &str) -> (r: bool)
    requires
        start <= path@.len(),
    ensures
        r == (spec_lower(path@.subrange(start as int, path@.len() as int)) == pattern@),
{
    let n = path.unicode_len();
    let m = pattern.unicode_len();
    let ghost sub = path@.subrange(start as int, path@.len() as int);
    if n - start != m {
        proof {
            assert(spec_lower(sub).len() != pattern@.len());
        }
        return false;
    }
    let mut j: usize = 0;
    while j < m
        invariant
            n == path@.len(),
            m == pattern@.len(),
            start <= n,
            n - start == m,
            j <= m,
            sub == path@.subrange(start as int, path@.len() as int),
            forall|k: int| 0 <= k < j ==> spec_lower_char(sub[k]) == pattern@[k],
        decreases m - j,
    {
        if lower_char(path.get_char(start + j)) != pattern.get_char(j) {
            proof {
                assert(sub[j as int] == path@[start + j]);
                assert(spec_lower(sub)[j as int] != pattern@[j as int]);
            }
            return false;
        }
        proof {
            assert(sub[j as int] == path@[start + j]);
        }
        j = j + 1;
    }
    proof {
        assert(spec_lower(sub) =~= pattern@);
    }
    true
}

/// Exact membership test over the extensions found in a directory listing.
pub fn folder_contains_extension(folder_extensions: &Vec<String>, extension: &str) -> (r: bool)
    ensures
        r == spec_folder_contains(folder_extensions@, extension@),
{
    let mut i: usize = 0;
    while i < folder_extensions.len()
        invariant
            i <= folder_extensions@.len(),
            forall|j: int| 0 <= j < i ==> #[trigger] folder_extensions@[j]@ != extension@,
        decreases folder_extensions@.len() - i,
    {
        if str_eq(folder_extensions[i].as_str(), extension) {
            proof {
                assert(folder_extensions@[i as int]@ == extension@);
            }
            return true;
        }
        i = i + 1;
    }
    false
}

/// Classifies a path into a format family.
///
/// `folder_extensions` lists the final extensions of the entries found when
/// `spectrum_path` is read as a directory; callers pass an empty list when
/// the path is not a directory. It is consulted only when the path's own
/// extension decides nothing.
pub fn match_file_type(spectrum_path: &str, folder_extensions: &Vec<String>) -> (t:
    SpectrumFileType)
    ensures
        t == spec_match_file_type(spectrum_path@, folder_extensions@),
{
    proof {
        reveal_strlit("mgf");
        reveal_strlit("mzml");
        reveal_strlit("d");
        reveal_strlit("ms2");
    }
    let dot = extension_start(spectrum_path);
    match dot {
        Some(st) => {
            if lowered_matches(spectrum_path, st, "mgf") {
                return SpectrumFileType::MascotGenericFormat;
            }
            if lowered_matches(spectrum_path, st, "mzml") {
                return SpectrumFileType::MzML;
            }
            if lowered_matches(spectrum_path, st, "d") {
                return SpectrumFileType::BrukerRaw;
            }
            if lowered_matches(spectrum_path, st, "ms2") {
                return SpectrumFileType::BrukerRaw;
            }
        },
        None => {
            proof {
                assert(spec_lower(spec_extension(spectrum_path@)).len() == 0);
            }
        },
    }
    if folder_contains_extension(folder_extensions, "bin") && folder_contains_extension(
        folder_extensions,
        "parquet",
    ) {
        SpectrumFileType::BrukerRaw
    } else {
        SpectrumFileType::Unknown
    }
}

} // verus!
