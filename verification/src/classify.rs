//! Pre-dispatch classification of inputs: the extension- and size-based skip
//! rules, and the size/line-count threshold that routes a job to the long
//! channel. The file reads happen outside; this module holds the decisions.

use vstd::prelude::*;

verus! {

/// ASCII lower-casing of one character; anything else is untouched.
pub open spec fn lower_char(c: char) -> char {
    if 'A' <= c && c <= 'Z' {
        ((c as u8) + 32) as char
    } else {
        c
    }
}

/// Case-insensitive (ASCII) equality of two character sequences.
pub open spec fn chars_eq_ci(a: Seq<char>, b: Seq<char>) -> bool {
    a.len() == b.len() && forall|i: int|
        0 <= i < a.len() ==> lower_char(#[trigger] a[i]) == lower_char(b[i])
}

fn lower_char_exec(c: char) -> (r: char)
    ensures
        r == lower_char(c),
{
    if 'A' <= c && c <= 'Z' {
        ((c as u8) + 32) as char
    } else {
        c
    }
}

/// Case-insensitive (ASCII) equality of two strings.
pub fn str_eq_ci(a: &str, b: &str) -> (r: bool)
    ensures
        r == chars_eq_ci(a@, b@),
{
    let na = a.unicode_len();
    let nb = b.unicode_len();
    if na != nb {
        return false;
    }
    let mut i: usize = 0;
    while i < na
        invariant
            0 <= i <= na,
            na == a@.len(),
            na == b@.len(),
            forall|k: int| 0 <= k < i ==> lower_char(#[trigger] a@[k]) == lower_char(b@[k]),
        decreases na - i,
    {
        let ca = lower_char_exec(a.get_char(i));
        let cb = lower_char_exec(b.get_char(i));
        if ca != cb {
            return false;
        }
        i = i + 1;
    }
    true
}

/// Exact equality of two strings.
pub fn str_eq(a: &str, b: &str) -> (r: bool)
    ensures
        r == (a@ == b@),
{
    let na = a.unicode_len();
    let nb = b.unicode_len();
    if na != nb {
        return false;
    }
    let mut i: usize = 0;
    while i < na
        invariant
            0 <= i <= na,
            na == a@.len(),
            na == b@.len(),
            forall|k: int| 0 <= k < i ==> #[trigger] a@[k] == b@[k],
        decreases na - i,
    {
        if a.get_char(i) != b.get_char(i) {
            return false;
        }
        i = i + 1;
    }
    proof {
        assert(a@ =~= b@);
    }
    true
}

/// Leading `.` characters stripped.
pub open spec fn strip_dots(s: Seq<char>) -> Seq<char>
    decreases s.len(),
{
    if s.len() > 0 && s[0] == '.' {
        strip_dots(s.drop_first())
    } else {
        s
    }
}

/// ASCII whitespace, as trimmed from a configured extension.
pub open spec fn is_ws_char(c: char) -> bool {
    c == ' ' || c == '\t' || c == '\n' || c == '\r'
}

/// First index at or after `i` holding a non-whitespace character.
pub open spec fn ws_char_from(s: Seq<char>, i: nat) -> nat
    recommends
        i <= s.len(),
    decreases s.len() - i,
{
    if i < s.len() && is_ws_char(s[i as int]) {
        ws_char_from(s, i + 1)
    } else {
        i
    }
}

/// Exclusive end of the non-whitespace part, scanning left from `j`.
pub open spec fn ws_char_until(s: Seq<char>, j: nat) -> nat
    recommends
        j <= s.len(),
    decreases j,
{
    if j > 0 && is_ws_char(s[j - 1]) {
        ws_char_until(s, (j - 1) as nat)
    } else {
        j
    }
}

/// The string with ASCII whitespace stripped from both ends.
pub open spec fn trim_chars(s: Seq<char>) -> Seq<char> {
    let a = ws_char_from(s, 0);
    let b = ws_char_until(s, s.len());
    if a < b {
        s.subrange(a as int, b as int)
    } else {
        Seq::empty()
    }
}

/// A configured skip entry in its effective form: whitespace trimmed and
/// leading dots stripped; the comparison against the file's extension
/// ignores ASCII case.
pub open spec fn ext_matches_spec(ext: Seq<char>, entry: Seq<char>) -> bool {
    chars_eq_ci(ext, strip_dots(trim_chars(entry)))
}

/// Whether a file extension matches one configured skip entry.
pub fn ext_matches(ext: &str, entry: &str) -> (r: bool)
    ensures
        r == ext_matches_spec(ext@, entry@),
{
    let n = entry.unicode_len();
    let mut a: usize = 0;
    while a < n && is_ws_char_exec(entry.get_char(a))
        invariant
            0 <= a <= n,
            n == entry@.len(),
            ws_char_from(entry@, 0) == ws_char_from(entry@, a as nat),
        decreases n - a,
    {
        a = a + 1;
    }
    let mut b: usize = n;
    while b > 0 && is_ws_char_exec(entry.get_char(b - 1))
        invariant
            0 <= b <= n,
            n == entry@.len(),
            ws_char_until(entry@, n as nat) == ws_char_until(entry@, b as nat),
        decreases b,
    {
        b = b - 1;
    }
    let trimmed = if a < b {
        entry.substring_char(a, b)
    } else {
        ""
    };
    proof {
        if a >= b {
            reveal_strlit("");
            assert(trimmed@ =~= trim_chars(entry@));
        }
    }
    let tn = trimmed.unicode_len();
    proof {
        assert(trimmed@.skip(0) =~= trimmed@);
    }
    let mut d: usize = 0;
    while d < tn && trimmed.get_char(d) == '.'
        invariant
            0 <= d <= tn,
            tn == trimmed@.len(),
            strip_dots(trimmed@) == strip_dots(trimmed@.skip(d as int)),
        decreases tn - d,
    {
        proof {
            assert(trimmed@.skip(d as int).drop_first() =~= trimmed@.skip(d + 1));
        }
        d = d + 1;
    }
    let stripped = trimmed.substring_char(d, tn);
    proof {
        assert(trimmed@.skip(d as int) =~= trimmed@.subrange(d as int, tn as int));
        assert(strip_dots(trimmed@) == stripped@);
    }
    str_eq_ci(ext, stripped)
}

fn is_ws_char_exec(c: char) -> (r: bool)
    ensures
        r == is_ws_char(c),
{
    c == ' ' || c == '\t' || c == '\n' || c == '\r'
}

/// Why a file was left out of the run.
#[derive(Clone, Copy, Debug, PartialEq, Eq, Structural)]
pub enum SkipReason {
    /// Its extension is on the configured skip list.
    MatchedExtension,
    /// It exceeds the configured size ceiling.
    TooLarge,
}

/// The skip decision for one file: a listed extension skips it; otherwise a
/// size above `max_size_mb` megabytes (when configured and when the size is
/// known) skips it.
pub open spec fn skip_spec(
    ext: Option<Seq<char>>,
    size: Option<u64>,
    entries: Seq<Seq<char>>,
    max_size_mb: Option<u64>,
) -> Option<SkipReason> {
    if entries.len() > 0 && ext is Some && exists|i: int|
        0 <= i < entries.len() && ext_matches_spec(ext->0, #[trigger] entries[i]) {
        Some(SkipReason::MatchedExtension)
    } else {
        match (max_size_mb, size) {
            (Some(mb), Some(sz)) => {
                let limit = if mb * 0x100000 > u64::MAX {
                    u64::MAX as int
                } else {
                    mb * 0x100000
                };
                if sz > limit {
                    Some(SkipReason::TooLarge)
                } else {
                    None
                }
            },
            _ => None,
        }
    }
}

/// The views of a vector of configured entries.
pub open spec fn entry_views(s: Seq<String>) -> Seq<Seq<char>> {
    s.map_values(|e: String| e@)
}

/// Whether to skip a file, given its extension (if it has one), its size on
/// disk (if it could be read) and the configured rules.
pub fn should_skip(
    ext: Option<&String>,
    size: Option<u64>,
    skip_exts: &Vec<String>,
    max_size_mb: Option<u64>,
) -> (r: Option<SkipReason>)
    ensures
        r == skip_spec(
            match ext {
                Some(e) => Some(e@),
                None => None,
            },
            size,
            entry_views(skip_exts@),
            max_size_mb,
        ),
{
    let ghost entries = entry_views(skip_exts@);
    if skip_exts.len() > 0 {
        if let Some(e) = ext {
            let mut i: usize = 0;
            while i < skip_exts.len()
                invariant
                    0 <= i <= skip_exts@.len(),
                    entries == entry_views(skip_exts@),
                    ext == Some(e),
                    forall|k: int|
                        0 <= k < i ==> !ext_matches_spec(e@, #[trigger] entries[k]),
                decreases skip_exts@.len() - i,
            {
                if ext_matches(e.as_str(), skip_exts[i].as_str()) {
                    proof {
                        assert(entries[i as int] == skip_exts@[i as int]@);
                        assert(ext_matches_spec(e@, entries[i as int]));
                        assert(exists|k: int|
                            0 <= k < entries.len() && ext_matches_spec(
                                e@,
                                #[trigger] entries[k],
                            ));
                    }
                    return Some(SkipReason::MatchedExtension);
                }
                i = i + 1;
            }
        }
    }
    if let (Some(mb), Some(sz)) = (max_size_mb, size) {
        let limit = match mb.checked_mul(0x100000) {
            Some(l) => l,
            None => u64::MAX,
        };
        if sz > limit {
            return Some(SkipReason::TooLarge);
        }
    }
    None
}

/// The number of occurrences of a byte in a buffer.
pub open spec fn count_byte_spec(s: Seq<u8>, b: u8) -> nat
    decreases s.len(),
{
    if s.len() == 0 {
        0
    } else {
        count_byte_spec(s.drop_last(), b) + if s.last() == b {
            1nat
        } else {
            0nat
        }
    }
}

pub proof fn lemma_count_byte_le_len(s: Seq<u8>, b: u8)
    ensures
        count_byte_spec(s, b) <= s.len(),
    decreases s.len(),
{
    if s.len() > 0 {
        lemma_count_byte_le_len(s.drop_last(), b);
    }
}

/// Relies on bytecount::count: the number of occurrences of `needle` in the
/// slice, which depends on the bytes alone.
#[verifier::external_body]
fn count_byte(haystack: &Vec<u8>, needle: u8) -> (r: usize)
    ensures
        r == count_byte_spec(haystack@, needle),
{
    bytecount::count(haystack, needle)
}

/// Whether a file belongs on the long channel: at or above the byte
/// threshold, or - with a non-zero line threshold - at or above it in line
/// count (newlines plus one).
pub open spec fn long_file_spec(
    size: nat,
    newlines: nat,
    bytes_threshold: u64,
    lines_threshold: u64,
) -> bool {
    if size >= bytes_threshold {
        true
    } else if lines_threshold == 0 {
        false
    } else {
        newlines + 1 >= lines_threshold
    }
}

/// The long-channel routing decision for one file, from its size on disk
/// and (when the size alone does not settle it) its content.
pub fn is_long_by_thresholds(
    size: u64,
    data: &Vec<u8>,
    bytes_threshold: u64,
    lines_threshold: u64,
) -> (r: bool)
    ensures
        r == long_file_spec(
            size as nat,
            count_byte_spec(data@, 10),
            bytes_threshold,
            lines_threshold,
        ),
{
    if size >= bytes_threshold {
        return true;
    }
    if lines_threshold == 0 {
        return false;
    }
    let newlines = count_byte(data, 10);
    proof {
        lemma_count_byte_le_len(data@, 10);
    }
    if newlines as u64 >= u64::MAX {
        true
    } else {
        (newlines as u64) + 1 >= lines_threshold
    }
}

} // verus!
