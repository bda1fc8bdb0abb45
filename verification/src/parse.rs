//! Parsing of the structural diff lines: file paths out of file-meta marker
//! lines, file extensions, the human-readable change description, and the
//! code fragment and line number of a hunk header.

use vstd::prelude::*;

use crate::strings::has_prefix;
use crate::strings::spec_find_char;
use crate::strings::spec_find_double;
use crate::strings::spec_rfind_char;
use crate::strings::starts_with;
use crate::strings::find_char;
use crate::strings::find_double;
use crate::strings::rfind_char;

verus! {

/// The file path a file-meta marker line carries. `rename from` / `rename to`
/// lines keep the rest of the line; `---` / `+++` lines keep the rest with,
/// in the commit-style format, a leading `a/` or `b/` stripped, and in the
/// unified format, everything from the first tab on dropped.
pub open spec fn spec_file_path(line: Seq<char>, git: bool) -> Seq<char> {
    if has_prefix(line, "rename from "@) {
        line.skip("rename from "@.len() as int)
    } else if has_prefix(line, "rename to "@) {
        line.skip("rename to "@.len() as int)
    } else if has_prefix(line, "--- "@) || has_prefix(line, "+++ "@) {
        let rest = line.skip(4);
        if git {
            if has_prefix(rest, "a/"@) || has_prefix(rest, "b/"@) {
                rest.skip(2)
            } else {
                rest
            }
        } else {
            match spec_find_char(rest, '\t', 0) {
                Some(j) => rest.subrange(0, j),
                None => rest,
            }
        }
    } else {
        Seq::empty()
    }
}

/// Extract the file path from a file-meta marker line.
pub fn get_file_path_from_file_meta_line(line: &str, git_diff_name: bool) -> (r: String)
    ensures
        r@ == spec_file_path(line@, git_diff_name),
{
    let n = line.unicode_len();
    let rename_from = "rename from ";
    let rename_to = "rename to ";
    if starts_with(line, rename_from) {
        let k = rename_from.unicode_len();
        return line.substring_char(k, n).to_owned();
    }
    if starts_with(line, rename_to) {
        let k = rename_to.unicode_len();
        return line.substring_char(k, n).to_owned();
    }
    if starts_with(line, "--- ") || starts_with(line, "+++ ") {
        proof {
            reveal_strlit("--- ");
            reveal_strlit("+++ ");
        }
        let rest = line.substring_char(4, n);
        let m = rest.unicode_len();
        if git_diff_name {
            if starts_with(rest, "a/") || starts_with(rest, "b/") {
                proof {
                    reveal_strlit("a/");
                    reveal_strlit("b/");
                }
                rest.substring_char(2, m).to_owned()
            } else {
                rest.to_owned()
            }
        } else {
            match find_char(rest, '\t', 0) {
                Some(j) => rest.substring_char(0, j).to_owned(),
                None => rest.to_owned(),
            }
        }
    } else {
        String::new()
    }
}

/// The extension of a path: what follows the last dot, unless the dot is
/// last, absent, or a slash follows it.
pub open spec fn spec_file_extension(path: Seq<char>) -> Option<Seq<char>> {
    match spec_rfind_char(path, '.') {
        Some(i) => if i + 1 < path.len() && spec_find_char(path, '/', i + 1) is None {
            Some(path.skip(i + 1))
        } else {
            None
        },
        None => None,
    }
}

/// Extract the extension from a file path.
pub fn get_file_extension_from_file_meta_line_file_path(path: &str) -> (r: Option<String>)
    ensures
        crate::strings::opt_view(r) == spec_file_extension(path@),
{
    let n = path.unicode_len();
    match rfind_char(path, '.') {
        Some(i) => {
            proof {
                lemma_rfind_in_range(path@, '.');
            }
            if i + 1 < n {
                match find_char(path, '/', i + 1) {
                    Some(_) => None,
                    None => Some(path.substring_char(i + 1, n).to_owned()),
                }
            } else {
                None
            }
        },
        None => None,
    }
}

proof fn lemma_rfind_in_range(s: Seq<char>, c: char)
    ensures
        match spec_rfind_char(s, c) {
            Some(i) => 0 <= i < s.len(),
            None => true,
        },
    decreases s.len(),
{
    if s.len() > 0 && s[s.len() - 1] != c {
        lemma_rfind_in_range(s.drop_last(), c);
    }
}

/// Extract the extension from a unified-diff marker line (`--- path<TAB>…`).
pub fn get_file_extension_from_marker_line(line: &str) -> (r: Option<String>)
    ensures
        crate::strings::opt_view(r) == spec_file_extension(spec_file_path(line@, false)),
{
    let path = get_file_path_from_file_meta_line(line, false);
    get_file_extension_from_file_meta_line_file_path(path.as_str())
}

/// The human-readable description of a file change: `added:` when the old
/// side is the null device, `deleted:` when the new side is, `comparing:`
/// between two unified-diff paths, the bare path when nothing was renamed,
/// and `renamed:` otherwise.
pub open spec fn spec_change_description(
    minus_file: Seq<char>,
    plus_file: Seq<char>,
    comparing: bool,
) -> Seq<char> {
    if minus_file == "/dev/null"@ {
        "added: "@ + plus_file
    } else if plus_file == "/dev/null"@ {
        "deleted: "@ + minus_file
    } else if comparing {
        "comparing: "@ + minus_file + " \u{27f6}   "@ + plus_file
    } else if minus_file == plus_file {
        minus_file
    } else {
        "renamed: "@ + minus_file + " \u{27f6}   "@ + plus_file
    }
}

/// Build the change description from the two file paths.
pub fn get_file_change_description_from_file_paths(
    minus_file: &str,
    plus_file: &str,
    comparing: bool,
) -> (r: String)
    ensures
        r@ == spec_change_description(minus_file@, plus_file@, comparing),
{
    if crate::strings::str_eq(minus_file, "/dev/null") {
        let mut out = String::from_str("added: ");
        out.append(plus_file);
        out
    } else if crate::strings::str_eq(plus_file, "/dev/null") {
        let mut out = String::from_str("deleted: ");
        out.append(minus_file);
        out
    } else if comparing {
        let mut out = String::from_str("comparing: ");
        out.append(minus_file);
        out.append(" \u{27f6}   ");
        out.append(plus_file);
        out
    } else if crate::strings::str_eq(minus_file, plus_file) {
        minus_file.to_owned()
    } else {
        let mut out = String::from_str("renamed: ");
        out.append(minus_file);
        out.append(" \u{27f6}   ");
        out.append(plus_file);
        out
    }
}

/// The characters of `s` from `from` up to the first comma or space.
pub open spec fn spec_until_delim(s: Seq<char>, from: int) -> Seq<char>
    decreases s.len() - from,
{
    if from < 0 || from >= s.len() || s[from] == ',' || s[from] == ' ' {
        Seq::empty()
    } else {
        seq![s[from]] + spec_until_delim(s, from + 1)
    }
}

/// The code fragment and new-side line number of a hunk header line. The
/// fragment is what follows the second `@@`; the line number is what stands
/// between the first `+` after the first `@@` and the next comma or space.
pub open spec fn spec_hunk_metadata(line: Seq<char>) -> (Seq<char>, Seq<char>) {
    match spec_find_double(line, '@', 0) {
        None => (Seq::empty(), Seq::empty()),
        Some(i) => {
            let middle = match spec_find_double(line, '@', i + 2) {
                Some(j) => line.subrange(i + 2, j),
                None => line.skip(i + 2),
            };
            let frag = match spec_find_double(line, '@', i + 2) {
                Some(j) => line.skip(j + 2),
                None => Seq::empty(),
            };
            let num = match spec_find_char(middle, '+', 0) {
                Some(p) => spec_until_delim(middle, p + 1),
                None => Seq::empty(),
            };
            (frag, num)
        },
    }
}

/// Take the characters of `s` from `from` up to the first comma or space.
fn until_delim(s: &str, from: usize) -> (r: String)
    requires
        from <= s@.len(),
    ensures
        r@ == spec_until_delim(s@, from as int),
{
    let n = s.unicode_len();
    let mut out = String::new();
    let mut i: usize = from;
    let mut done: bool = false;
    while i < n && !done
        invariant
            from <= i <= n,
            n == s@.len(),
            spec_until_delim(s@, from as int) == out@ + spec_until_delim(s@, i as int),
            done ==> spec_until_delim(s@, i as int) == Seq::<char>::empty(),
        decreases n - i, (if done {
            0int
        } else {
            1int
        }),
    {
        let c = s.get_char(i);
        if c == ',' || c == ' ' {
            assert(spec_until_delim(s@, i as int) =~= Seq::<char>::empty());
            done = true;
        } else {
            proof {
                assert(out@ + spec_until_delim(s@, i as int) =~= out@.push(s@[i as int])
                    + spec_until_delim(s@, i as int + 1));
            }
            out.push(c);
            i += 1;
        }
    }
    assert(out@ =~= spec_until_delim(s@, from as int));
    out
}

/// Split a hunk header line into its trailing code fragment and its new-side
/// line number.
pub fn parse_hunk_metadata(line: &str) -> (r: (String, String))
    ensures
        r.0@ == spec_hunk_metadata(line@).0,
        r.1@ == spec_hunk_metadata(line@).1,
{
    let n = line.unicode_len();
    match find_double(line, '@', 0) {
        None => (String::new(), String::new()),
        Some(i) => {
            proof {
                lemma_find_double_props(line@, '@', 0);
            }
            let after = i + 2;
            let (middle, frag): (String, String) = match find_double(line, '@', after) {
                Some(j) => {
                    proof {
                        lemma_find_double_props(line@, '@', after as int);
                    }
                    (
                        line.substring_char(after, j).to_owned(),
                        line.substring_char(j + 2, n).to_owned(),
                    )
                },
                None => (line.substring_char(after, n).to_owned(), String::new()),
            };
            let num: String = match find_char(middle.as_str(), '+', 0) {
                Some(p) => until_delim(middle.as_str(), p + 1),
                None => String::new(),
            };
            proof {
                assert(line@.skip(after as int) =~= line@.subrange(after as int, n as int));
            }
            (frag, num)
        },
    }
}

proof fn lemma_find_double_props(s: Seq<char>, c: char, from: int)
    requires
        0 <= from,
    ensures
        match spec_find_double(s, c, from) {
            Some(j) => from <= j && j + 1 < s.len(),
            None => true,
        },
    decreases s.len() - from,
{
    if from + 1 < s.len() && !(s[from] == c && s[from + 1] == c) {
        lemma_find_double_props(s, c, from + 1);
    }
}

} // verus!

