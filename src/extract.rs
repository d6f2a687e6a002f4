//! Extracting a revision range as patch files: the `git format-patch`
//! invocation, and reading the file names it prints.
use vstd::prelude::*;
use vstd::string::*;
use crate::path::{join, join_path};

verus! {

/// Index of the first newline of `s`, or its length where it has none.
pub open spec fn newline_at(s: Seq<char>) -> nat
    decreases s.len(),
{
    if s.len() == 0 {
        0
    } else if s[0] == '\n' {
        0
    } else {
        1 + newline_at(s.drop_first())
    }
}

/// A line without the carriage return that ended it, if any.
pub open spec fn strip_cr(l: Seq<char>) -> Seq<char> {
    if l.len() > 0 && l.last() == '\r' {
        l.drop_last()
    } else {
        l
    }
}

/// The lines of a text: pieces ended by `\n` (or `\r\n`, whose `\r` is
/// dropped too), and a last piece without a newline where it is non-empty.
pub open spec fn lines(s: Seq<char>) -> Seq<Seq<char>>
    decreases s.len(),
{
    if s.len() == 0 {
        seq![]
    } else {
        let k = newline_at(s);
        if k >= s.len() {
            seq![s]
        } else {
            seq![strip_cr(s.subrange(0, k as int))] + lines(s.subrange(k as int + 1, s.len() as int))
        }
    }
}

proof fn lemma_newline_at(s: Seq<char>, k: int)
    requires
        0 <= k <= s.len(),
        forall|j: int| 0 <= j < k ==> s[j] != '\n',
        k == s.len() || s[k] == '\n',
    ensures
        newline_at(s) == k,
    decreases k,
{
    if k > 0 {
        assert(s[0] != '\n');
        lemma_newline_at(s.drop_first(), k - 1);
    }
}

/// Splits a text into its lines.
pub fn split_lines(s: &str) -> (r: Vec<String>)
    ensures
        r.deep_view() == lines(s@),
{
    let len = s.unicode_len();
    let mut out: Vec<String> = Vec::new();
    let mut start: usize = 0;
    let mut i: usize = 0;
    proof {
        assert(s@.subrange(0, len as int) =~= s@);
        assert(out.deep_view() + lines(s@) =~= lines(s@));
    }
    while i < len
        invariant
            len == s@.len(),
            start <= i <= len,
            lines(s@) == out.deep_view() + lines(s@.subrange(start as int, len as int)),
            forall|j: int| start <= j < i ==> s@[j] != '\n',
        decreases len - i,
    {
        if s.get_char(i) == '\n' {
            let ghost t = s@.subrange(start as int, len as int);
            proof {
                lemma_newline_at(t, i - start);
                assert(t.subrange((i - start) + 1, t.len() as int) =~= s@.subrange(i + 1, len as int));
            }
            let end: usize = if i > start && s.get_char(i - 1) == '\r' {
                i - 1
            } else {
                i
            };
            let line = String::from_str(s.substring_char(start, end));
            proof {
                assert(line@ =~= strip_cr(t.subrange(0, i - start)));
            }
            let ghost before = out.deep_view();
            out.push(line);
            proof {
                assert(out.deep_view() =~= before.push(line@));
                assert(lines(s@) =~= out.deep_view() + lines(s@.subrange(i + 1, len as int)));
            }
            start = i + 1;
        }
        i = i + 1;
    }
    let ghost t = s@.subrange(start as int, len as int);
    if start < len {
        proof {
            lemma_newline_at(t, t.len() as int);
        }
        let line = String::from_str(s.substring_char(start, len));
        let ghost before = out.deep_view();
        out.push(line);
        proof {
            assert(line@ =~= t);
            assert(out.deep_view() =~= before.push(line@));
            assert(lines(t) =~= seq![t]);
            assert(lines(s@) =~= out.deep_view());
        }
    } else {
        proof {
            assert(t.len() == 0);
            assert(lines(s@) =~= out.deep_view());
        }
    }
    out
}

/// The paths of the patch files named in `listing`, one per line, each
/// taken relative to the source repository `src`; in the order listed.
pub open spec fn patch_paths_of(src: Seq<char>, listing: Seq<char>) -> Seq<Seq<char>> {
    lines(listing).map_values(|l: Seq<char>| join_path(src, l))
}

/// Reads what `git format-patch` printed into the paths of the patch
/// files, oldest commit first.
pub fn patch_paths(src: &str, listing: &str) -> (r: Vec<String>)
    ensures
        r.deep_view() == patch_paths_of(src@, listing@),
        r.len() == lines(listing@).len(),
{
    let names = split_lines(listing);
    let mut out: Vec<String> = Vec::new();
    let mut i: usize = 0;
    while i < names.len()
        invariant
            i <= names.len(),
            names.deep_view() == lines(listing@),
            out.deep_view() =~= names.deep_view().subrange(0, i as int).map_values(
                |l: Seq<char>| join_path(src@, l),
            ),
        decreases names.len() - i,
    {
        let p = join(src, names[i].as_str());
        let ghost before = out.deep_view();
        out.push(p);
        proof {
            assert(out.deep_view() =~= before.push(p@));
        }
        i = i + 1;
    }
    proof {
        assert(names.deep_view().subrange(0, i as int) =~= names.deep_view());
    }
    out
}

/// The arguments of `git` that extract `revisions` from the repository at
/// `src` as patch files: the whole history up to it where `from_root`, only
/// the tip commit where `single_commit`, and only changes under `scope` where
/// one is given.
pub open spec fn format_patch_argv(
    src: Seq<char>,
    revisions: Seq<char>,
    from_root: bool,
    single_commit: bool,
    scope: Option<Seq<char>>,
) -> Seq<Seq<char>> {
    seq!["-C"@, src, "format-patch"@] + (if from_root {
        seq!["--root"@]
    } else {
        seq![]
    }) + (if single_commit {
        seq!["-1"@]
    } else {
        seq![]
    }) + seq![revisions] + match scope {
        Some(d) => seq!["--"@, d],
        None => seq![],
    }
}

/// Builds the `git format-patch` arguments.
pub fn format_patch_args(
    src: &str,
    revisions: &str,
    from_root: bool,
    single_commit: bool,
    scope: Option<&str>,
) -> (r: Vec<String>)
    ensures
        r.deep_view() == format_patch_argv(src@, revisions@, from_root, single_commit, scope.deep_view()),
{
    let mut v: Vec<String> = Vec::new();
    v.push(String::from_str("-C"));
    v.push(String::from_str(src));
    v.push(String::from_str("format-patch"));
    if from_root {
        v.push(String::from_str("--root"));
    }
    if single_commit {
        v.push(String::from_str("-1"));
    }
    v.push(String::from_str(revisions));
    match scope {
        Some(d) => {
            v.push(String::from_str("--"));
            v.push(String::from_str(d));
        },
        None => {},
    }
    assert(v.deep_view() =~= format_patch_argv(src@, revisions@, from_root, single_commit, scope.deep_view()));
    v
}

} // verus!
