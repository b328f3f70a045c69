//! Facts about sequences that the proofs of this crate share.
use vstd::prelude::*;

verus! {

/// What a sequence with one more element contains.
pub proof fn lemma_push_contains<A>(s: Seq<A>, a: A, x: A)
    ensures
        s.push(a).contains(x) <==> (s.contains(x) || x == a),
{
    if s.contains(x) {
        let i = choose|i: int| 0 <= i < s.len() && s[i] == x;
        assert(s.push(a)[i] == x);
    }
    if x == a {
        assert(s.push(a)[s.len() as int] == a);
    }
    if s.push(a).contains(x) {
        let i = choose|i: int| 0 <= i < s.push(a).len() && s.push(a)[i] == x;
        if i < s.len() {
            assert(s[i] == x);
        }
    }
}

/// Adding an element a sequence does not contain keeps it free of
/// duplicates.
pub proof fn lemma_push_no_duplicates<A>(s: Seq<A>, a: A)
    requires
        s.no_duplicates(),
        !s.contains(a),
    ensures
        s.push(a).no_duplicates(),
{
    assert forall|i: int, j: int| 0 <= i < s.push(a).len() && 0 <= j < s.push(a).len() && i != j
        implies s.push(a)[i] != s.push(a)[j] by {
        if i == s.len() {
            assert(s[j] == s.push(a)[j]);
        } else if j == s.len() {
            assert(s[i] == s.push(a)[i]);
        }
    }
}

} // verus!
