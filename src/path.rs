//! Path arithmetic on Unix paths: component counts, strip depths, joins.
use vstd::prelude::*;
use vstd::string::*;

verus! {

/// Whether the segment that begins at `i` is a lone `.`.
pub open spec fn is_dot_segment(p: Seq<char>, i: int) -> bool {
    p[i] == '.' && (i + 1 == p.len() || p[i + 1] == '/')
}

/// Whether a component (other than the root) begins at index `i`: the first
/// character of a segment between separators, where a `.` segment counts only
/// at the very start of a relative path.
pub open spec fn starts_component(p: Seq<char>, i: int) -> bool {
    &&& p[i] != '/'
    &&& (i == 0 || p[i - 1] == '/')
    &&& (i == 0 || !is_dot_segment(p, i))
}

/// Number of indices below `n` at which a component begins.
pub open spec fn starts_below(p: Seq<char>, n: nat) -> nat
    decreases n,
{
    if n == 0 {
        0
    } else {
        starts_below(p, (n - 1) as nat) + if starts_component(p, n - 1) {
            1nat
        } else {
            0nat
        }
    }
}

/// Whether the path is absolute, which adds a root component.
pub open spec fn has_root(p: Seq<char>) -> bool {
    p.len() > 0 && p[0] == '/'
}

/// The number of components of a path: the root if any, and each segment
/// between separators but empty ones and non-leading `.` ones.
pub open spec fn component_count(p: Seq<char>) -> nat {
    (if has_root(p) {
        1nat
    } else {
        0nat
    }) + starts_below(p, p.len())
}

/// The strip depth for a source scope: one for the `a/` and `b/` prefix
/// of diff paths, plus each component of the scope.
pub open spec fn strip_depth_of(scope: Option<Seq<char>>) -> nat {
    match scope {
        None => 1,
        Some(s) => component_count(s) + 1,
    }
}

/// Two components cannot begin at neighbouring indices, so at most every
/// other index starts one.
proof fn lemma_starts_below_bound(p: Seq<char>, n: nat)
    requires
        n <= p.len(),
    ensures
        starts_below(p, n) <= (n + 1) / 2,
    decreases n,
{
    reveal_with_fuel(starts_below, 2);
    if n >= 2 {
        lemma_starts_below_bound(p, (n - 2) as nat);
        assert(starts_below(p, (n - 1) as nat) == starts_below(p, (n - 2) as nat) + if starts_component(p, n - 2) { 1nat } else { 0nat });
        assert(!(starts_component(p, n - 1) && starts_component(p, n - 2)));
    }
}

/// Counts the components of `path`.
pub fn component_count_of(path: &str) -> (r: usize)
    ensures
        r == component_count(path@),
        r < usize::MAX,
{
    let len = path.unicode_len();
    let mut count: usize = 0;
    let mut i: usize = 0;
    while i < len
        invariant
            len == path@.len(),
            i <= len,
            count == starts_below(path@, i as nat),
        decreases len - i,
    {
        proof {
            lemma_starts_below_bound(path@, (i + 1) as nat);
        }
        let c = path.get_char(i);
        let starts = if c == '/' {
            false
        } else if i == 0 {
            true
        } else if path.get_char(i - 1) != '/' {
            false
        } else {
            !(c == '.' && (i + 1 == len || path.get_char(i + 1) == '/'))
        };
        if starts {
            count = count + 1;
        }
        i = i + 1;
    }
    proof {
        lemma_starts_below_bound(path@, len as nat);
    }
    if len > 0 && path.get_char(0) == '/' {
        count + 1
    } else {
        count
    }
}

/// The number of leading components to strip from diff paths of patches
/// extracted under `scope`, so that they apply at the destination root.
/// Exact only where `scope` names a directory.
pub fn strip_depth(scope: Option<&str>) -> (r: usize)
    ensures
        r == strip_depth_of(
            match scope {
                None => None,
                Some(s) => Some(s@),
            },
        ),
{
    match scope {
        None => 1,
        Some(s) => {
            let n = component_count_of(s);
            n + 1
        },
    }
}

/// `base` joined with `rel` as a path: `rel` itself where it is absolute,
/// else `rel` after `base` with one separator added where `base` is
/// non-empty and does not already end in one.
pub open spec fn join_path(base: Seq<char>, rel: Seq<char>) -> Seq<char> {
    if has_root(rel) {
        rel
    } else if base.len() > 0 && base.last() != '/' {
        base + seq!['/'] + rel
    } else {
        base + rel
    }
}

/// Joins `rel` onto `base`.
pub fn join(base: &str, rel: &str) -> (r: String)
    ensures
        r@ == join_path(base@, rel@),
{
    if rel.unicode_len() > 0 && rel.get_char(0) == '/' {
        return String::from_str(rel);
    }
    let mut r = String::from_str(base);
    let n = base.unicode_len();
    if n > 0 && base.get_char(n - 1) != '/' {
        proof {
            reveal_strlit("/");
        }
        r.append("/");
    }
    r.append(rel);
    r
}

} // verus!
