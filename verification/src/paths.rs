//! Output-path derivation, modelled over strings with `/` as the
//! separator: the per-file summary path beside its input, the same inside a
//! separate output root, and the output root derived from the input
//! directory.

use vstd::prelude::*;

verus! {

/// Index right after the last `/` at or before `j`; `0` if there is none.
pub open spec fn name_start(s: Seq<char>, j: nat) -> nat
    recommends
        j <= s.len(),
    decreases j,
{
    if j > 0 && s[j - 1] != '/' {
        name_start(s, (j - 1) as nat)
    } else {
        j
    }
}

/// The final path component.
pub open spec fn file_name_spec(s: Seq<char>) -> Seq<char> {
    s.skip(name_start(s, s.len()) as int)
}

/// Everything up to and including the last `/`.
pub open spec fn dir_prefix_spec(s: Seq<char>) -> Seq<char> {
    s.take(name_start(s, s.len()) as int)
}

/// The summary file beside its input: the input path with the file name
/// replaced by `{file_name}.summary.{version}.md`. A path without a file
/// name has no summary path.
pub open spec fn summary_path_spec(input: Seq<char>, version: Seq<char>) -> Option<Seq<char>> {
    let name = file_name_spec(input);
    if name.len() == 0 {
        None
    } else {
        Some(dir_prefix_spec(input) + name + ".summary."@ + version + ".md"@)
    }
}

/// Joining a root and a relative path with a single separator.
pub open spec fn join_spec(root: Seq<char>, rel: Seq<char>) -> Seq<char> {
    if root.len() == 0 {
        rel
    } else if root.last() == '/' {
        root + rel
    } else {
        root + seq!['/'] + rel
    }
}

/// The output root beside the input directory: the directory path with its
/// name replaced by `{dir_name}.summaries.{version}`.
pub open spec fn output_root_spec(input_dir: Seq<char>, version: Seq<char>) -> Option<Seq<char>> {
    let name = file_name_spec(input_dir);
    if name.len() == 0 {
        None
    } else {
        Some(dir_prefix_spec(input_dir) + name + ".summaries."@ + version)
    }
}

/// Splits a path into its directory prefix and file name; the pair of
/// `substring_char` bounds is the scan for the last separator.
fn split_name(path: &str) -> (r: (usize, usize))
    ensures
        r.0 == name_start(path@, path@.len()),
        r.1 == path@.len(),
        r.0 <= r.1,
{
    let n = path.unicode_len();
    let mut j: usize = n;
    while j > 0 && path.get_char(j - 1) != '/'
        invariant
            0 <= j <= n,
            n == path@.len(),
            name_start(path@, n as nat) == name_start(path@, j as nat),
        decreases j,
    {
        j = j - 1;
    }
    (j, n)
}

/// The summary path beside the input file, or `None` when the input path
/// has no file name.
pub fn build_file_summary_path(input: &str, version: &str) -> (r: Option<String>)
    ensures
        match r {
            Some(p) => summary_path_spec(input@, version@) == Some(p@),
            None => summary_path_spec(input@, version@) is None,
        },
{
    let (a, n) = split_name(input);
    if a == n {
        return None;
    }
    let mut out = String::new();
    out.append(input.substring_char(0, a));
    out.append(input.substring_char(a, n));
    out.append(".summary.");
    out.append(version);
    out.append(".md");
    proof {
        assert(input@.take(a as int) =~= input@.subrange(0, a as int));
        assert(input@.skip(a as int) =~= input@.subrange(a as int, n as int));
    }
    Some(out)
}

/// The summary path of one input file inside the output root, keeping its
/// relative location; `None` when the relative path has no file name.
pub fn build_file_summary_path_in_output(output_root: &str, relative_path: &str, version: &str) -> (r:
    Option<String>)
    ensures
        match r {
            Some(p) => {
                &&& summary_path_spec(relative_path@, version@) is Some
                &&& p@ == join_spec(output_root@, summary_path_spec(relative_path@, version@)->0)
            },
            None => summary_path_spec(relative_path@, version@) is None,
        },
{
    let rel = match build_file_summary_path(relative_path, version) {
        Some(p) => p,
        None => {
            return None;
        },
    };
    let rn = output_root.unicode_len();
    let mut out = String::new();
    out.append(output_root);
    if rn > 0 && output_root.get_char(rn - 1) != '/' {
        out.append("/");
        proof {
            reveal_strlit("/");
            assert("/"@ =~= seq!['/']);
        }
    }
    out.append(rel.as_str());
    Some(out)
}

/// The output root beside the input directory, or `None` when the input
/// path has no final component.
pub fn build_output_root(input_dir: &str, version: &str) -> (r: Option<String>)
    ensures
        match r {
            Some(p) => output_root_spec(input_dir@, version@) == Some(p@),
            None => output_root_spec(input_dir@, version@) is None,
        },
{
    let (a, n) = split_name(input_dir);
    if a == n {
        return None;
    }
    let mut out = String::new();
    out.append(input_dir.substring_char(0, a));
    out.append(input_dir.substring_char(a, n));
    out.append(".summaries.");
    out.append(version);
    proof {
        assert(input_dir@.take(a as int) =~= input_dir@.subrange(0, a as int));
        assert(input_dir@.skip(a as int) =~= input_dir@.subrange(a as int, n as int));
    }
    Some(out)
}

/// The extension of a path's file name: what follows the last `.` of the
/// final component, provided that dot is not its first character. A name
/// that ends in a dot has an empty extension, a name whose only dot leads
/// (or that has none) has no extension at all.
pub open spec fn extension_spec(path: Seq<char>) -> Option<Seq<char>> {
    let name = file_name_spec(path);
    let d = dot_start(name, name.len());
    if d <= 1 || name[d - 1] != '.' {
        None
    } else {
        Some(name.skip(d as int))
    }
}

/// Index right after the last `.` at or before `j`; `0` if there is none.
pub open spec fn dot_start(s: Seq<char>, j: nat) -> nat
    recommends
        j <= s.len(),
    decreases j,
{
    if j > 0 && s[j - 1] != '.' {
        dot_start(s, (j - 1) as nat)
    } else {
        j
    }
}

/// The file extension of a path, if its file name has one.
pub fn extension_of(path: &str) -> (r: Option<String>)
    ensures
        match r {
            Some(e) => extension_spec(path@) == Some(e@),
            None => extension_spec(path@) is None,
        },
{
    let (a, n) = split_name(path);
    let name = path.substring_char(a, n);
    proof {
        assert(path@.skip(a as int) =~= path@.subrange(a as int, n as int));
    }
    let m = name.unicode_len();
    let mut j: usize = m;
    while j > 0 && name.get_char(j - 1) != '.'
        invariant
            0 <= j <= m,
            m == name@.len(),
            dot_start(name@, m as nat) == dot_start(name@, j as nat),
        decreases j,
    {
        j = j - 1;
    }
    if j <= 1 || name.get_char(j - 1) != '.' {
        None
    } else {
        let ext = name.substring_char(j, m);
        proof {
            assert(name@.skip(j as int) =~= name@.subrange(j as int, m as int));
        }
        Some(String::from_str(ext))
    }
}

} // verus!
