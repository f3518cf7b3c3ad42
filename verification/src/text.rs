//! Facts about texts built by joining pieces.

use vstd::prelude::*;

verus! {

/// Two texts that share what comes before and after a piece are equal only
/// if the pieces are.
pub proof fn lemma_middle_determined(x: Seq<char>, m1: Seq<char>, m2: Seq<char>, y: Seq<char>)
    requires
        x + m1 + y == x + m2 + y,
    ensures
        m1 == m2,
{
    let p1 = x + m1 + y;
    let p2 = x + m2 + y;
    assert(p1.len() == p2.len());
    assert forall|k: int| 0 <= k < m1.len() implies m1[k] == m2[k] by {
        assert(p1[x.len() + k] == m1[k]);
        assert(p2[x.len() + k] == m2[k]);
    }
    assert(m1 =~= m2);
}

/// `t` holds `piece` somewhere.
pub open spec fn contains_text(t: Seq<char>, piece: Seq<char>) -> bool {
    exists|i: int| 0 <= i && i + piece.len() <= t.len() && #[trigger] t.subrange(i, i + piece.len()) == piece
}

/// A text built around a piece holds that piece.
pub proof fn lemma_contains_middle(x: Seq<char>, m: Seq<char>, y: Seq<char>)
    ensures
        contains_text(x + m + y, m),
{
    let t = x + m + y;
    assert(t.subrange(x.len() as int, (x.len() + m.len()) as int) =~= m);
}

} // verus!
