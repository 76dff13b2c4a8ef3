//! The relative prefix that leads from a nested manifest's directory
//! back up to the resolved root.

use vstd::prelude::*;
use vstd::string::StringExecFns;

verus! {

/// `"../"` repeated `n` times.
pub open spec fn prefix_model(n: nat) -> Seq<char>
    decreases n,
{
    if n == 0 {
        Seq::empty()
    } else {
        prefix_model((n - 1) as nat) + "../"@
    }
}

/// The number of directory levels between a manifest and its root,
/// given how many path components the manifest path keeps once the root
/// prefix is stripped — the last component being the file name itself.
pub open spec fn levels_model(component_count: nat) -> nat {
    if component_count == 0 {
        0
    } else {
        (component_count - 1) as nat
    }
}

/// `"../"` repeated `levels` times.
pub fn relative_prefix(levels: usize) -> (r: String)
    ensures
        r@ == prefix_model(levels as nat),
{
    let mut r = String::new();
    let mut i: usize = 0;
    while i < levels
        invariant
            i <= levels,
            r@ == prefix_model(i as nat),
        decreases levels - i,
    {
        r.append("../");
        i = i + 1;
    }
    r
}

/// The prefix that makes root-relative paths valid from the directory of
/// a manifest `component_count` stripped components below the root: one
/// parent step per directory level.
pub fn manifest_relative_prefix(component_count: usize) -> (r: String)
    ensures
        r@ == prefix_model(levels_model(component_count as nat)),
{
    let levels: usize = if component_count == 0 {
        0
    } else {
        component_count - 1
    };
    relative_prefix(levels)
}

/// Law: the prefix for `n` levels consists of exactly `n` parent steps —
/// three characters per level, each step the literal `"../"` — and zero
/// levels (a file directly in the root) give the empty prefix.
pub proof fn lemma_prefix_steps(n: nat)
    ensures
        prefix_model(n).len() == 3 * n,
        forall|i: int| 0 <= i < n ==> #[trigger] prefix_model(n).subrange(3 * i, 3 * i + 3) == "../"@,
    decreases n,
{
    broadcast use vstd::string::group_string_axioms;

    reveal_strlit("../");
    if n > 0 {
        lemma_prefix_steps((n - 1) as nat);
        assert forall|i: int| 0 <= i < n implies #[trigger] prefix_model(n).subrange(
            3 * i,
            3 * i + 3,
        ) == "../"@ by {
            if i < n - 1 {
                assert(prefix_model(n).subrange(3 * i, 3 * i + 3) =~= prefix_model(
                    (n - 1) as nat,
                ).subrange(3 * i, 3 * i + 3));
            } else {
                assert(prefix_model(n).subrange(3 * i, 3 * i + 3) =~= "../"@);
            }
        }
    }
}

} // verus!
