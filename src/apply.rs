//! Applying patch files to the destination repository through `git am`.
use vstd::prelude::*;
use vstd::string::*;

verus! {

/// The decimal digit for `d`, below ten.
pub open spec fn digit_char(d: nat) -> char {
    "0123456789"@[d as int]
}

/// The decimal numeral of `n`, without leading zeros.
pub open spec fn decimal(n: nat) -> Seq<char>
    decreases n,
{
    if n < 10 {
        seq![digit_char(n)]
    } else {
        decimal(n / 10).push(digit_char(n % 10))
    }
}

/// Appends the decimal numeral of `n` to `s`.
pub fn push_decimal(s: &mut String, n: usize)
    ensures
        final(s)@ == old(s)@ + decimal(n as nat),
    decreases n,
{
    if n >= 10 {
        push_decimal(s, n / 10);
    }
    let digits = "0123456789";
    proof {
        reveal_strlit("0123456789");
    }
    let d = n % 10;
    let ghost before = s@;
    s.append(digits.substring_char(d, d + 1));
    proof {
        assert(digits@.subrange(d as int, d + 1) =~= seq![digit_char(d as nat)]);
        if n >= 10 {
            assert(s@ =~= old(s)@ + decimal(n as nat));
        } else {
            assert(s@ =~= old(s)@ + decimal(n as nat));
        }
    }
}

/// The arguments of `git` that apply the patch files in order: under
/// `directory` where one is given, stripping `depth` leading components of
/// diff paths where a depth is given.
pub open spec fn am_argv(
    directory: Option<Seq<char>>,
    depth: Option<usize>,
    patches: Seq<Seq<char>>,
) -> Seq<Seq<char>> {
    seq!["am"@] + match directory {
        Some(d) => seq!["--directory"@, d],
        None => seq![],
    } + match depth {
        Some(p) => seq!["-p"@ + decimal(p as nat)],
        None => seq![],
    } + patches
}

/// Builds the `git am` arguments.
pub fn am_args(directory: Option<&str>, depth: Option<usize>, patches: &Vec<String>) -> (r: Vec<String>)
    ensures
        r.deep_view() == am_argv(directory.deep_view(), depth, patches.deep_view()),
{
    let mut v: Vec<String> = Vec::new();
    v.push(String::from_str("am"));
    match directory {
        Some(d) => {
            v.push(String::from_str("--directory"));
            v.push(String::from_str(d));
        },
        None => {},
    }
    match depth {
        Some(p) => {
            let mut flag = String::from_str("-p");
            push_decimal(&mut flag, p);
            v.push(flag);
        },
        None => {},
    }
    let ghost head = v.deep_view();
    proof {
        assert(head + patches.deep_view() =~= am_argv(directory.deep_view(), depth, patches.deep_view()));
    }
    let mut j: usize = 0;
    while j < patches.len()
        invariant
            j <= patches.len(),
            v.deep_view() =~= head + patches.deep_view().subrange(0, j as int),
        decreases patches.len() - j,
    {
        let ghost before = v.deep_view();
        let p = patches[j].clone();
        v.push(p);
        proof {
            assert(v.deep_view() =~= before.push(p@));
        }
        j = j + 1;
    }
    proof {
        assert(patches.deep_view().subrange(0, j as int) =~= patches.deep_view());
    }
    v
}

} // verus!
