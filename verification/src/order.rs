//! Lexicographic order on text, character by character, and equality of
//! text, both decided by one pass over the two strings.

use core::cmp::Ordering;
use vstd::prelude::*;
use vstd::std_specs::iter::IteratorSpec;

verus! {

/// `a` and `b` agree on their first `k` characters, and at position `k`
/// either `a` has ended while `b` goes on, or `a` holds the smaller
/// character.
pub open spec fn precedes_at(a: Seq<char>, b: Seq<char>, k: int) -> bool {
    &&& 0 <= k <= a.len()
    &&& k < b.len()
    &&& forall|i: int| 0 <= i < k ==> a[i] == b[i]
    &&& (k == a.len() || a[k] < b[k])
}

/// `a` comes strictly before `b` in lexicographic order.
pub open spec fn precedes(a: Seq<char>, b: Seq<char>) -> bool {
    exists|k: int| precedes_at(a, b, k)
}

/// How `a` stands to `b` in lexicographic order.
pub open spec fn text_order(a: Seq<char>, b: Seq<char>) -> Ordering {
    if a == b {
        Ordering::Equal
    } else if precedes(a, b) {
        Ordering::Less
    } else {
        Ordering::Greater
    }
}

/// No text precedes itself.
pub proof fn precedes_irreflexive(a: Seq<char>)
    ensures
        !precedes(a, a),
{
}

/// Of two texts at most one precedes the other.
pub proof fn precedes_asymmetric(a: Seq<char>, b: Seq<char>)
    requires
        precedes(a, b),
    ensures
        !precedes(b, a),
{
    let j = choose|j: int| precedes_at(a, b, j);
    if precedes(b, a) {
        let k = choose|k: int| precedes_at(b, a, k);
        if j < k {
            assert(b[j] == a[j]);
        } else if k < j {
            assert(a[k] == b[k]);
        }
    }
}

/// Of two different texts one precedes the other.
pub proof fn precedes_total(a: Seq<char>, b: Seq<char>)
    requires
        a != b,
    ensures
        precedes(a, b) || precedes(b, a),
{
    differ_after_common_prefix(a, b, 0);
}

/// Two different texts that agree on their first `k` characters are
/// ordered one way or the other.
proof fn differ_after_common_prefix(a: Seq<char>, b: Seq<char>, k: int)
    requires
        a != b,
        0 <= k <= a.len(),
        k <= b.len(),
        forall|i: int| 0 <= i < k ==> a[i] == b[i],
    ensures
        precedes(a, b) || precedes(b, a),
    decreases a.len() - k,
{
    if k == a.len() {
        if k == b.len() {
            assert(a =~= b);
        } else {
            assert(precedes_at(a, b, k));
        }
    } else if k == b.len() {
        assert(precedes_at(b, a, k));
    } else if a[k] < b[k] {
        assert(precedes_at(a, b, k));
    } else if b[k] < a[k] {
        assert(precedes_at(b, a, k));
    } else {
        differ_after_common_prefix(a, b, k + 1);
    }
}

/// If `a` precedes `b` and `b` precedes `c`, then `a` precedes `c`.
pub proof fn precedes_transitive(a: Seq<char>, b: Seq<char>, c: Seq<char>)
    requires
        precedes(a, b),
        precedes(b, c),
    ensures
        precedes(a, c),
{
    let j = choose|j: int| precedes_at(a, b, j);
    let k = choose|k: int| precedes_at(b, c, k);
    if j <= k {
        assert(precedes_at(a, c, j));
    } else {
        assert(precedes_at(a, c, k));
    }
}

/// Decides the lexicographic order of two strings.
pub fn compare_text(a: &str, b: &str) -> (o: Ordering)
    ensures
        o == text_order(a@, b@),
{
    broadcast use vstd::string::axiom_spec_iter, vstd::string::next_postcondition;

    let mut xs = a.chars();
    let mut ys = b.chars();
    let ghost mut k: int = 0;
    loop
        invariant
            0 <= k <= a@.len(),
            k <= b@.len(),
            xs.remaining() == a@.skip(k),
            ys.remaining() == b@.skip(k),
            forall|i: int| 0 <= i < k ==> a@[i] == b@[i],
        decreases a@.len() - k,
    {
        match (xs.next(), ys.next()) {
            (None, None) => {
                assert(a@ =~= b@);
                return Ordering::Equal;
            },
            (None, Some(_)) => {
                assert(precedes_at(a@, b@, k));
                return Ordering::Less;
            },
            (Some(_), None) => {
                proof {
                    assert(precedes_at(b@, a@, k));
                    precedes_asymmetric(b@, a@);
                }
                return Ordering::Greater;
            },
            (Some(x), Some(y)) => {
                if x < y {
                    assert(precedes_at(a@, b@, k));
                    return Ordering::Less;
                } else if y < x {
                    proof {
                        assert(precedes_at(b@, a@, k));
                        precedes_asymmetric(b@, a@);
                    }
                    return Ordering::Greater;
                }
                proof {
                    k = k + 1;
                }
            },
        }
    }
}

/// Decides whether two strings hold the same characters.
pub fn same_text(a: &str, b: &str) -> (same: bool)
    ensures
        same == (a@ == b@),
{
    match compare_text(a, b) {
        Ordering::Equal => true,
        _ => false,
    }
}

} // verus!
