//! Annotating patch files with trailers through `git interpret-trailers`.
use vstd::prelude::*;
use vstd::string::*;

verus! {

/// The `token=value` directive of each (token, value) pair of a flat list
/// of alternating tokens and values; an unpaired last token is ignored.
pub open spec fn directives_of(values: Seq<Seq<char>>) -> Seq<Seq<char>> {
    Seq::new(values.len() / 2, |i: int| values[2 * i] + "="@ + values[2 * i + 1])
}

/// Pairs up alternating tokens and values into `token=value` directives,
/// keeping their order.
pub fn trailer_directives(values: &Vec<String>) -> (r: Vec<String>)
    ensures
        r.deep_view() == directives_of(values.deep_view()),
{
    let mut out: Vec<String> = Vec::new();
    let n = values.len() / 2;
    let mut i: usize = 0;
    while i < n
        invariant
            n == values.len() / 2,
            i <= n,
            out.deep_view() =~= directives_of(values.deep_view()).subrange(0, i as int),
        decreases n - i,
    {
        let mut d = values[2 * i].clone();
        d.append("=");
        d.append(values[2 * i + 1].as_str());
        let ghost before = out.deep_view();
        out.push(d);
        proof {
            assert(out.deep_view() =~= before.push(d@));
        }
        i = i + 1;
    }
    out
}

/// `--trailer` followed by the directive, for each directive in order.
pub open spec fn trailer_flags(directives: Seq<Seq<char>>) -> Seq<Seq<char>>
    decreases directives.len(),
{
    if directives.len() == 0 {
        seq![]
    } else {
        trailer_flags(directives.drop_last()) + seq!["--trailer"@, directives.last()]
    }
}

/// The arguments of `git` that add the trailers to each patch file in place.
pub open spec fn interpret_trailers_argv(
    directives: Seq<Seq<char>>,
    patches: Seq<Seq<char>>,
) -> Seq<Seq<char>> {
    seq!["interpret-trailers"@, "--in-place"@] + trailer_flags(directives) + patches
}

/// Builds the `git interpret-trailers` arguments.
pub fn interpret_trailers_args(directives: &Vec<String>, patches: &Vec<String>) -> (r: Vec<String>)
    ensures
        r.deep_view() == interpret_trailers_argv(directives.deep_view(), patches.deep_view()),
{
    let mut v: Vec<String> = Vec::new();
    v.push(String::from_str("interpret-trailers"));
    v.push(String::from_str("--in-place"));
    let ghost head = v.deep_view();
    let mut i: usize = 0;
    while i < directives.len()
        invariant
            i <= directives.len(),
            head == seq!["interpret-trailers"@, "--in-place"@],
            v.deep_view() =~= head + trailer_flags(directives.deep_view().subrange(0, i as int)),
        decreases directives.len() - i,
    {
        let ghost before = v.deep_view();
        let flag = String::from_str("--trailer");
        let d = directives[i].clone();
        v.push(flag);
        v.push(d);
        proof {
            assert(v.deep_view() =~= before + seq![flag@, d@]);
            let ds = directives.deep_view().subrange(0, i + 1);
            assert(ds.drop_last() =~= directives.deep_view().subrange(0, i as int));
            assert(v.deep_view() =~= head + trailer_flags(ds));
        }
        i = i + 1;
    }
    proof {
        assert(directives.deep_view().subrange(0, i as int) =~= directives.deep_view());
    }
    let ghost mid = v.deep_view();
    let mut j: usize = 0;
    while j < patches.len()
        invariant
            j <= patches.len(),
            v.deep_view() =~= mid + patches.deep_view().subrange(0, j as int),
        decreases patches.len() - j,
    {
        let ghost before = v.deep_view();
        let p = patches[j].clone();
        v.push(p);
        proof {
            assert(v.deep_view() =~= before.push(p@));
        }
        j = j + 1;
    }
    proof {
        assert(patches.deep_view().subrange(0, j as int) =~= patches.deep_view());
    }
    v
}

} // verus!
