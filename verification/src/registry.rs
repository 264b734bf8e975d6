use vstd::prelude::*;

use crate::types::Address;

verus! {

/// No address appears twice as a key.
pub open spec fn distinct_keys<X>(s: Seq<(Address, X)>) -> bool {
    forall|i: int, j: int| 0 <= i < j < s.len() ==> (#[trigger] s[i]).0 != (#[trigger] s[j]).0
}

/// The value stored under `a`, if any.
pub open spec fn lookup<X>(s: Seq<(Address, X)>, a: Address) -> Option<X> {
    if exists|i: int| 0 <= i < s.len() && (#[trigger] s[i]).0 == a {
        Some(s[choose|i: int| 0 <= i < s.len() && (#[trigger] s[i]).0 == a].1)
    } else {
        None
    }
}

pub proof fn lemma_lookup_at<X>(s: Seq<(Address, X)>, i: int)
    requires
        distinct_keys(s),
        0 <= i < s.len(),
    ensures
        lookup(s, s[i].0) == Some(s[i].1),
{
    let a = s[i].0;
    assert(0 <= i < s.len() && s[i].0 == a);
    let j = choose|j: int| 0 <= j < s.len() && (#[trigger] s[j]).0 == a;
    if j < i {
        assert(s[j].0 != s[i].0);
    } else if i < j {
        assert(s[i].0 != s[j].0);
    }
}

/// Position of `a` among the keys.
pub fn find_key<X: Copy>(s: &Vec<(Address, X)>, a: Address) -> (r: Option<usize>)
    ensures
        match r {
            Some(i) => i < s@.len() && s@[i as int].0 == a,
            None => forall|i: int| 0 <= i < s@.len() ==> (#[trigger] s@[i]).0 != a,
        },
{
    let mut i: usize = 0;
    while i < s.len()
        invariant
            0 <= i <= s@.len(),
            forall|k: int| 0 <= k < i ==> (#[trigger] s@[k]).0 != a,
        decreases s.len() - i,
    {
        if s[i].0 == a {
            return Some(i);
        }
        i = i + 1;
    }
    None
}

/// Value stored under `a`, or `None`.
pub fn get_value<X: Copy>(s: &Vec<(Address, X)>, a: Address) -> (r: Option<X>)
    requires
        distinct_keys(s@),
    ensures
        r == lookup(s@, a),
{
    match find_key(s, a) {
        Some(i) => {
            proof {
                lemma_lookup_at(s@, i as int);
            }
            Some(s[i].1)
        },
        None => None,
    }
}

/// Stores `x` under `a`, replacing any previous value.
pub fn upsert<X: Copy>(s: &mut Vec<(Address, X)>, a: Address, x: X)
    requires
        distinct_keys(old(s)@),
    ensures
        distinct_keys(final(s)@),
        lookup(final(s)@, a) == Some(x),
        forall|b: Address| b != a ==> lookup(final(s)@, b) == lookup(old(s)@, b),
{
    let ghost s0 = s@;
    match find_key(s, a) {
        Some(i) => {
            s.set(i, (a, x));
            proof {
                let s1 = s@;
                assert(s1 == s0.update(i as int, (a, x)));
                assert(distinct_keys(s1)) by {
                    assert forall|p: int, q: int| 0 <= p < q < s1.len() implies (#[trigger] s1[p]).0
                        != (#[trigger] s1[q]).0 by {
                        assert(s0[p].0 != s0[q].0);
                    }
                }
                lemma_lookup_at(s1, i as int);
                assert forall|b: Address| b != a implies lookup(s1, b) == lookup(s0, b) by {
                    if exists|k: int| 0 <= k < s0.len() && (#[trigger] s0[k]).0 == b {
                        let k = choose|k: int| 0 <= k < s0.len() && (#[trigger] s0[k]).0 == b;
                        assert(k != i);
                        assert(s1[k] == s0[k]);
                        lemma_lookup_at(s0, k);
                        lemma_lookup_at(s1, k);
                    } else {
                        assert forall|k: int| 0 <= k < s1.len() implies (#[trigger] s1[k]).0 != b by {
                            if k != i {
                                assert(s1[k] == s0[k]);
                            }
                        }
                    }
                }
            }
        },
        None => {
            s.push((a, x));
            proof {
                let s1 = s@;
                assert(s1 == s0.push((a, x)));
                assert(distinct_keys(s1)) by {
                    assert forall|p: int, q: int| 0 <= p < q < s1.len() implies (#[trigger] s1[p]).0
                        != (#[trigger] s1[q]).0 by {
                        if q < s0.len() {
                            assert(s0[p].0 != s0[q].0);
                        } else {
                            assert(s1[p] == s0[p]);
                        }
                    }
                }
                lemma_lookup_at(s1, s0.len() as int);
                assert forall|b: Address| b != a implies lookup(s1, b) == lookup(s0, b) by {
                    if exists|k: int| 0 <= k < s0.len() && (#[trigger] s0[k]).0 == b {
                        let k = choose|k: int| 0 <= k < s0.len() && (#[trigger] s0[k]).0 == b;
                        assert(s1[k] == s0[k]);
                        lemma_lookup_at(s0, k);
                        lemma_lookup_at(s1, k);
                    } else {
                        assert forall|k: int| 0 <= k < s1.len() implies (#[trigger] s1[k]).0 != b by {
                            if k < s0.len() {
                                assert(s1[k] == s0[k]);
                            }
                        }
                    }
                }
            }
        },
    }
}

} // verus!
