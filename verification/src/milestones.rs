use vstd::prelude::*;

use crate::types::Milestone;

verus! {

/// Sum of all milestone amounts.
pub open spec fn total_amount(ms: Seq<Milestone>) -> int
    decreases ms.len(),
{
    if ms.len() == 0 {
        0
    } else {
        total_amount(ms.drop_last()) + ms.last().amount
    }
}

/// Sum of the amounts of the released milestones.
pub open spec fn released_total(ms: Seq<Milestone>) -> int
    decreases ms.len(),
{
    if ms.len() == 0 {
        0
    } else {
        released_total(ms.drop_last()) + (if ms.last().released {
            ms.last().amount as int
        } else {
            0
        })
    }
}

/// Sum of the amounts of the refunded milestones.
pub open spec fn refunded_total(ms: Seq<Milestone>) -> int
    decreases ms.len(),
{
    if ms.len() == 0 {
        0
    } else {
        refunded_total(ms.drop_last()) + (if ms.last().refunded {
            ms.last().amount as int
        } else {
            0
        })
    }
}

/// Number of released milestones.
pub open spec fn released_count(ms: Seq<Milestone>) -> int
    decreases ms.len(),
{
    if ms.len() == 0 {
        0
    } else {
        released_count(ms.drop_last()) + (if ms.last().released {
            1int
        } else {
            0
        })
    }
}

/// A milestone is settled once it has been released or refunded.
pub open spec fn settled(m: Milestone) -> bool {
    m.released || m.refunded
}

pub open spec fn all_settled(ms: Seq<Milestone>) -> bool {
    forall|i: int| 0 <= i < ms.len() ==> settled(#[trigger] ms[i])
}

pub open spec fn all_refunded(ms: Seq<Milestone>) -> bool {
    forall|i: int| 0 <= i < ms.len() ==> (#[trigger] ms[i]).refunded
}

/// The part of a milestone of `amount` covered by `funded` stroops of
/// deposits when the milestones before it take `prefix` stroops first.
pub open spec fn covered(amount: int, prefix: int, funded: int) -> int {
    if funded - prefix <= 0 {
        0
    } else if funded - prefix >= amount {
        amount
    } else {
        funded - prefix
    }
}

/// The per-milestone bookkeeping fields agree with the contract's funding:
/// deposits cover milestones in order, and a refunded milestone records its
/// amount as refunded.
pub open spec fn milestone_books(ms: Seq<Milestone>, funded: int) -> bool {
    forall|i: int|
        0 <= i < ms.len() ==> {
            &&& (#[trigger] ms[i]).funded_amount == covered(
                ms[i].amount as int,
                total_amount(ms.take(i)),
                funded,
            )
            &&& ms[i].refunded_amount == (if ms[i].refunded {
                ms[i].amount
            } else {
                0
            })
        }
}

/// Same amounts at the same positions.
pub open spec fn same_amounts(a: Seq<Milestone>, b: Seq<Milestone>) -> bool {
    &&& a.len() == b.len()
    &&& forall|i: int| 0 <= i < a.len() ==> (#[trigger] a[i]).amount == b[i].amount
}

pub proof fn lemma_total_amount_same(a: Seq<Milestone>, b: Seq<Milestone>)
    requires
        same_amounts(a, b),
    ensures
        total_amount(a) == total_amount(b),
        forall|j: int| 0 <= j <= a.len() ==> total_amount(#[trigger] a.take(j)) == total_amount(b.take(j)),
    decreases a.len(),
{
    if a.len() > 0 {
        lemma_total_amount_same(a.drop_last(), b.drop_last());
    }
    assert forall|j: int| 0 <= j <= a.len() implies total_amount(#[trigger] a.take(j)) == total_amount(
        b.take(j),
    ) by {
        if j < a.len() {
            assert(a.take(j) =~= a.drop_last().take(j));
            assert(b.take(j) =~= b.drop_last().take(j));
        } else {
            assert(a.take(j) =~= a);
            assert(b.take(j) =~= b);
        }
    }
}

/// Adding one more milestone to a prefix adds its amount.
pub proof fn lemma_take_step(ms: Seq<Milestone>, i: int)
    requires
        0 <= i < ms.len(),
    ensures
        total_amount(ms.take(i + 1)) == total_amount(ms.take(i)) + ms[i].amount,
{
    assert(ms.take(i + 1).drop_last() =~= ms.take(i));
}

/// How the three sums change when one milestone is replaced.
pub proof fn lemma_update_sums(ms: Seq<Milestone>, i: int, m: Milestone)
    requires
        0 <= i < ms.len(),
    ensures
        total_amount(ms.update(i, m)) == total_amount(ms) - ms[i].amount + m.amount,
        released_total(ms.update(i, m)) == released_total(ms) - (if ms[i].released {
            ms[i].amount as int
        } else {
            0
        }) + (if m.released {
            m.amount as int
        } else {
            0
        }),
        refunded_total(ms.update(i, m)) == refunded_total(ms) - (if ms[i].refunded {
            ms[i].amount as int
        } else {
            0
        }) + (if m.refunded {
            m.amount as int
        } else {
            0
        }),
        released_count(ms.update(i, m)) == released_count(ms) - (if ms[i].released {
            1int
        } else {
            0
        }) + (if m.released {
            1int
        } else {
            0
        }),
    decreases ms.len(),
{
    let u = ms.update(i, m);
    if i == ms.len() - 1 {
        assert(u.drop_last() =~= ms.drop_last());
    } else {
        assert(u.drop_last() =~= ms.drop_last().update(i, m));
        lemma_update_sums(ms.drop_last(), i, m);
    }
}

/// With positive amounts and no milestone both released and refunded, the
/// released and refunded sums are non-negative and together at most the total.
pub proof fn lemma_sum_bounds(ms: Seq<Milestone>)
    requires
        forall|i: int| 0 <= i < ms.len() ==> (#[trigger] ms[i]).amount > 0,
        forall|i: int| 0 <= i < ms.len() ==> !((#[trigger] ms[i]).released && ms[i].refunded),
    ensures
        0 <= released_total(ms),
        0 <= refunded_total(ms),
        released_total(ms) + refunded_total(ms) <= total_amount(ms),
        0 <= released_count(ms) <= ms.len(),
        ms.len() > 0 ==> total_amount(ms) > 0,
        all_settled(ms) ==> released_total(ms) + refunded_total(ms) == total_amount(ms),
        all_refunded(ms) ==> released_total(ms) == 0,
    decreases ms.len(),
{
    if ms.len() > 0 {
        let d = ms.drop_last();
        assert forall|i: int| 0 <= i < d.len() implies (#[trigger] d[i]).amount > 0 by {
            assert(d[i] == ms[i]);
        }
        assert forall|i: int| 0 <= i < d.len() implies !((#[trigger] d[i]).released && d[i].refunded) by {
            assert(d[i] == ms[i]);
        }
        lemma_sum_bounds(d);
        assert(ms.last() == ms[ms.len() - 1]);
        if all_settled(ms) {
            assert forall|i: int| 0 <= i < d.len() implies settled(#[trigger] d[i]) by {
                assert(d[i] == ms[i]);
            }
        }
        if all_refunded(ms) {
            assert forall|i: int| 0 <= i < d.len() implies (#[trigger] d[i]).refunded by {
                assert(d[i] == ms[i]);
            }
        }
    }
}

/// Each milestone amount is at most the total.
pub proof fn lemma_amount_le_total(ms: Seq<Milestone>, i: int)
    requires
        0 <= i < ms.len(),
        forall|k: int| 0 <= k < ms.len() ==> (#[trigger] ms[k]).amount > 0,
    ensures
        ms[i].amount <= total_amount(ms),
        0 <= total_amount(ms.take(i)),
        total_amount(ms.take(i)) + ms[i].amount <= total_amount(ms),
    decreases ms.len(),
{
    let d = ms.drop_last();
    assert forall|k: int| 0 <= k < d.len() implies (#[trigger] d[k]).amount > 0 by {
        assert(d[k] == ms[k]);
    }
    if i == ms.len() - 1 {
        assert(ms.take(i) =~= d);
        lemma_prefix_nonneg(d);
    } else {
        lemma_amount_le_total(d, i);
        assert(ms.take(i) =~= d.take(i));
        assert(ms.last() == ms[ms.len() - 1]);
    }
}

pub proof fn lemma_prefix_nonneg(ms: Seq<Milestone>)
    requires
        forall|k: int| 0 <= k < ms.len() ==> (#[trigger] ms[k]).amount > 0,
    ensures
        0 <= total_amount(ms),
    decreases ms.len(),
{
    if ms.len() > 0 {
        let d = ms.drop_last();
        assert forall|k: int| 0 <= k < d.len() implies (#[trigger] d[k]).amount > 0 by {
            assert(d[k] == ms[k]);
        }
        lemma_prefix_nonneg(d);
        assert(ms.last() == ms[ms.len() - 1]);
    }
}


/// Same amounts and the same released/refunded flags at the same positions.
pub open spec fn same_flags(a: Seq<Milestone>, b: Seq<Milestone>) -> bool {
    &&& same_amounts(a, b)
    &&& forall|i: int|
        0 <= i < a.len() ==> (#[trigger] a[i]).released == b[i].released && a[i].refunded
            == b[i].refunded
}

pub proof fn lemma_same_flags(a: Seq<Milestone>, b: Seq<Milestone>)
    requires
        same_flags(a, b),
    ensures
        total_amount(a) == total_amount(b),
        released_total(a) == released_total(b),
        refunded_total(a) == refunded_total(b),
        released_count(a) == released_count(b),
        all_settled(a) == all_settled(b),
        all_refunded(a) == all_refunded(b),
    decreases a.len(),
{
    if a.len() > 0 {
        let (da, db) = (a.drop_last(), b.drop_last());
        assert forall|i: int| 0 <= i < da.len() implies (#[trigger] da[i]).amount == db[i].amount by {
            assert(da[i] == a[i] && db[i] == b[i]);
        }
        assert forall|i: int| 0 <= i < da.len() implies (#[trigger] da[i]).released == db[i].released
            && da[i].refunded == db[i].refunded by {
            assert(da[i] == a[i] && db[i] == b[i]);
        }
        lemma_same_flags(da, db);
        assert(a.last() == a[a.len() - 1] && b.last() == b[b.len() - 1]);
    }
    if all_settled(a) {
        assert forall|i: int| 0 <= i < b.len() implies settled(#[trigger] b[i]) by {
            assert(settled(a[i]));
        }
    }
    if all_settled(b) {
        assert forall|i: int| 0 <= i < a.len() implies settled(#[trigger] a[i]) by {
            assert(settled(b[i]));
        }
    }
    if all_refunded(a) {
        assert forall|i: int| 0 <= i < b.len() implies (#[trigger] b[i]).refunded by {
            assert(a[i].refunded);
        }
    }
    if all_refunded(b) {
        assert forall|i: int| 0 <= i < a.len() implies (#[trigger] a[i]).refunded by {
            assert(b[i].refunded);
        }
    }
}

/// With nothing released or refunded, both sums are zero.
pub proof fn lemma_unsettled_totals(ms: Seq<Milestone>)
    requires
        forall|i: int| 0 <= i < ms.len() ==> !(#[trigger] ms[i]).released && !ms[i].refunded,
    ensures
        released_total(ms) == 0,
        refunded_total(ms) == 0,
        released_count(ms) == 0,
    decreases ms.len(),
{
    if ms.len() > 0 {
        let d = ms.drop_last();
        assert forall|i: int| 0 <= i < d.len() implies !(#[trigger] d[i]).released && !d[i].refunded by {
            assert(d[i] == ms[i]);
        }
        lemma_unsettled_totals(d);
        assert(ms.last() == ms[ms.len() - 1]);
    }
}

/// The milestones of a new contract with the given amounts.
pub open spec fn fresh_milestones(amounts: Seq<i128>) -> Seq<Milestone> {
    Seq::new(
        amounts.len(),
        |i: int|
            Milestone {
                amount: amounts[i],
                funded_amount: 0,
                released: false,
                refunded: false,
                refunded_amount: 0,
            },
    )
}

pub proof fn lemma_fresh_total(amounts: Seq<i128>)
    ensures
        total_amount(fresh_milestones(amounts)) == crate::amounts::seq_sum(amounts),
    decreases amounts.len(),
{
    if amounts.len() > 0 {
        assert(fresh_milestones(amounts).drop_last() =~= fresh_milestones(amounts.drop_last()));
        lemma_fresh_total(amounts.drop_last());
    }
}

/// The milestones after the contract's funding becomes `funded`: each
/// milestone's covered part is recomputed, all else is kept.
pub open spec fn redistribute(ms: Seq<Milestone>, funded: int) -> Seq<Milestone> {
    Seq::new(
        ms.len(),
        |i: int|
            Milestone {
                funded_amount: covered(ms[i].amount as int, total_amount(ms.take(i)), funded) as i128,
                ..ms[i]
            },
    )
}

} // verus!
