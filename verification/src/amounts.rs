//! Sums of the amounts held in maps from accounts.

use vstd::prelude::*;

verus! {

/// The sum of the amounts in a map.
pub open spec fn amount_sum(m: Map<Seq<char>, u128>) -> int
    decreases m.dom().len(),
    when m.dom().finite()
{
    if m.dom().len() == 0 {
        0
    } else {
        let k = m.dom().choose();
        m[k] + amount_sum(m.remove(k))
    }
}

/// The sum over a map is any of its amounts plus the sum over the rest.
pub proof fn lemma_amount_sum_remove(m: Map<Seq<char>, u128>, k: Seq<char>)
    requires
        m.dom().finite(),
        m.contains_key(k),
    ensures
        amount_sum(m) == m[k] + amount_sum(m.remove(k)),
    decreases m.dom().len(),
{
    let c = m.dom().choose();
    assert(m.dom().len() > 0);
    if c != k {
        assert(m.remove(c).dom() == m.dom().remove(c));
        assert(m.remove(k).dom() == m.dom().remove(k));
        lemma_amount_sum_remove(m.remove(c), k);
        lemma_amount_sum_remove(m.remove(k), c);
        assert(m.remove(c).remove(k) =~= m.remove(k).remove(c));
    }
}

/// Setting an amount changes the sum by the change of the amount.
pub proof fn lemma_amount_sum_insert(m: Map<Seq<char>, u128>, k: Seq<char>, v: u128)
    requires
        m.dom().finite(),
    ensures
        m.insert(k, v).dom().finite(),
        amount_sum(m.insert(k, v)) == amount_sum(m) + v - (if m.contains_key(k) {
            m[k] as int
        } else {
            0
        }),
{
    let m2 = m.insert(k, v);
    lemma_amount_sum_remove(m2, k);
    assert(m2.remove(k) =~= m.remove(k));
    if m.contains_key(k) {
        lemma_amount_sum_remove(m, k);
    } else {
        assert(m.remove(k) =~= m);
    }
}

} // verus!
