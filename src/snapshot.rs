//! Importing a tree as a flat snapshot: `git archive` piped into `tar`.
use vstd::prelude::*;
use vstd::string::*;
use crate::path::{join, join_path};

verus! {

/// What `str::trim_end` leaves of a text.
pub uninterp spec fn trimmed_end(s: Seq<char>) -> Seq<char>;

/// Relies on `str::trim_end`: the text without its trailing whitespace,
/// which is a prefix of it.
#[verifier::external_body]
fn trim_end(s: &str) -> (r: &str)
    ensures
        r@ == trimmed_end(s@),
        r@.len() <= s@.len(),
        r@ == s@.subrange(0, r@.len() as int),
{
    s.trim_end()
}

/// The arguments of `git` that print the top-level directory of the
/// repository it runs in.
pub open spec fn toplevel_argv() -> Seq<Seq<char>> {
    seq!["rev-parse"@, "--show-toplevel"@]
}

/// Builds the `git rev-parse` arguments.
pub fn toplevel_args() -> (r: Vec<String>)
    ensures
        r.deep_view() == toplevel_argv(),
{
    let v = vec![String::from_str("rev-parse"), String::from_str("--show-toplevel")];
    assert(v.deep_view() =~= toplevel_argv());
    v
}

/// Reads the top-level directory from what `git rev-parse` printed.
pub fn toplevel_of(output: &str) -> (r: String)
    ensures
        r@ == trimmed_end(output@),
{
    String::from_str(trim_end(output))
}

/// The directory the snapshot is unpacked into: `dst` under the top-level
/// directory where given, else the top-level directory itself.
pub open spec fn vendor_dir_of(toplevel: Seq<char>, dst: Option<Seq<char>>) -> Seq<char> {
    match dst {
        Some(d) => join_path(toplevel, d),
        None => toplevel,
    }
}

/// Picks the directory the snapshot is unpacked into.
pub fn vendor_dir(toplevel: &str, dst: Option<&str>) -> (r: String)
    ensures
        r@ == vendor_dir_of(toplevel@, dst.deep_view()),
{
    match dst {
        Some(d) => join(toplevel, d),
        None => String::from_str(toplevel),
    }
}

/// The arguments of `git` that write `tree_ish` of the repository at `src`
/// as a tar stream.
pub open spec fn archive_argv(src: Seq<char>, tree_ish: Seq<char>) -> Seq<Seq<char>> {
    seq!["-C"@, src, "archive"@, "--format"@, "tar"@, tree_ish]
}

/// Builds the `git archive` arguments.
pub fn archive_args(src: &str, tree_ish: &str) -> (r: Vec<String>)
    ensures
        r.deep_view() == archive_argv(src@, tree_ish@),
{
    let v = vec![
        String::from_str("-C"),
        String::from_str(src),
        String::from_str("archive"),
        String::from_str("--format"),
        String::from_str("tar"),
        String::from_str(tree_ish),
    ];
    assert(v.deep_view() =~= archive_argv(src@, tree_ish@));
    v
}

/// The arguments of `tar` that unpack a stream into `dir`.
pub open spec fn tar_argv(dir: Seq<char>) -> Seq<Seq<char>> {
    seq!["-C"@, dir, "-x"@]
}

/// Builds the `tar` arguments.
pub fn tar_args(dir: &str) -> (r: Vec<String>)
    ensures
        r.deep_view() == tar_argv(dir@),
{
    let v = vec![String::from_str("-C"), String::from_str(dir), String::from_str("-x")];
    assert(v.deep_view() =~= tar_argv(dir@));
    v
}

/// The exit code of the import, from the exit codes of the two processes:
/// the archive producer's where it failed, else the extractor's.
pub open spec fn import_exit_code_of(archive: i32, extract: i32) -> i32 {
    if archive != 0 {
        archive
    } else {
        extract
    }
}

/// Decides the exit code of the import.
pub fn import_exit_code(archive: i32, extract: i32) -> (r: i32)
    ensures
        r == import_exit_code_of(archive, extract),
        r == 0 <==> archive == 0 && extract == 0,
{
    if archive != 0 {
        archive
    } else {
        extract
    }
}

} // verus!
