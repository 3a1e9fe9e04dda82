//! Aggregation of inflation-right allocations by destination seal.
//!
//! An issuance re-delegates inflation rights through owned-rights slots;
//! several slots may target the same seal. Aggregation sums the amounts per
//! destination seal and records the ordered list of slot indices that
//! contributed, keeping the seals in first-encounter order.

use vstd::prelude::*;
use crate::seal::OutPoint;

verus! {

/// The inflation rights delegated to one destination seal: the total amount
/// that spending the seal may issue, plus the owned-rights slot indices that
/// contributed to it, in encounter order.
#[derive(Clone, Debug)]
pub struct InflationAssignment {
    /// Destination seal of the delegated right.
    pub seal: OutPoint,
    /// Total amount the seal's spender may issue (sum of the contributing
    /// slots' amounts, saturating at the largest atomic value).
    pub amount: u64,
    /// Indices of the owned-rights slots that contributed, in encounter
    /// order.
    pub indices: Vec<u16>,
}

/// Mathematical image of an [`InflationAssignment`].
pub struct AssignmentView {
    /// Destination seal of the delegated right.
    pub seal: OutPoint,
    /// Total amount the seal's spender may issue.
    pub amount: u64,
    /// Indices of the contributing slots, in encounter order.
    pub indices: Seq<u16>,
}

impl View for InflationAssignment {
    type V = AssignmentView;

    open spec fn view(&self) -> AssignmentView {
        AssignmentView { seal: self.seal, amount: self.amount, indices: self.indices@ }
    }
}

/// The views of a sequence of assignments.
pub open spec fn views_of(s: Seq<InflationAssignment>) -> Seq<AssignmentView> {
    s.map_values(|a: InflationAssignment| a@)
}

/// A sum clamped into the atomic-value range.
pub open spec fn clamped(x: int) -> u64 {
    if x > u64::MAX {
        u64::MAX
    } else {
        x as u64
    }
}

/// Sum of the amounts of the allocations targeting `key`.
pub open spec fn sum_towards(allocs: Seq<(OutPoint, u64)>, key: OutPoint) -> int
    decreases allocs.len(),
{
    if allocs.len() == 0 {
        0
    } else {
        sum_towards(allocs.drop_last(), key) + (if allocs.last().0 == key {
            allocs.last().1 as int
        } else {
            0
        })
    }
}

/// Indices of the allocations targeting `key`, in order.
pub open spec fn indices_towards(allocs: Seq<(OutPoint, u64)>, key: OutPoint) -> Seq<u16>
    decreases allocs.len(),
{
    if allocs.len() == 0 {
        Seq::empty()
    } else {
        let rest = indices_towards(allocs.drop_last(), key);
        if allocs.last().0 == key {
            rest.push((allocs.len() - 1) as u16)
        } else {
            rest
        }
    }
}

/// The distinct destination seals of the allocations, in first-encounter
/// order.
pub open spec fn assignment_keys(allocs: Seq<(OutPoint, u64)>) -> Seq<OutPoint>
    decreases allocs.len(),
{
    if allocs.len() == 0 {
        Seq::empty()
    } else {
        let rest = assignment_keys(allocs.drop_last());
        if rest.contains(allocs.last().0) {
            rest
        } else {
            rest.push(allocs.last().0)
        }
    }
}

/// What it means for `r` to aggregate `allocs`: one entry per distinct
/// destination seal, in first-encounter order, carrying the clamped sum of
/// the amounts and the ordered contributing indices.
pub open spec fn is_aggregated(allocs: Seq<(OutPoint, u64)>, r: Seq<AssignmentView>) -> bool {
    &&& r.len() == assignment_keys(allocs).len()
    &&& forall|i: int| 0 <= i < r.len() ==> #[trigger] r[i] == (AssignmentView {
            seal: assignment_keys(allocs)[i],
            amount: clamped(sum_towards(allocs, assignment_keys(allocs)[i])),
            indices: indices_towards(allocs, assignment_keys(allocs)[i]),
        })
}

/// Per-key sums are never negative.
pub proof fn lemma_sum_towards_nonneg(allocs: Seq<(OutPoint, u64)>, key: OutPoint)
    ensures
        sum_towards(allocs, key) >= 0,
    decreases allocs.len(),
{
    if allocs.len() > 0 {
        lemma_sum_towards_nonneg(allocs.drop_last(), key);
    }
}

/// The distinct destination seals are indeed distinct.
pub proof fn lemma_assignment_keys_distinct(allocs: Seq<(OutPoint, u64)>)
    ensures
        forall|i: int, j: int|
            0 <= i < j < assignment_keys(allocs).len() ==> assignment_keys(allocs)[i]
                != assignment_keys(allocs)[j],
    decreases allocs.len(),
{
    if allocs.len() > 0 {
        lemma_assignment_keys_distinct(allocs.drop_last());
        let rest = assignment_keys(allocs.drop_last());
        let x = allocs.last().0;
        if !rest.contains(x) {
            assert forall|i: int, j: int|
                0 <= i < j < assignment_keys(allocs).len() implies assignment_keys(allocs)[i]
                != assignment_keys(allocs)[j] by {
                if j == rest.len() {
                    assert(assignment_keys(allocs)[i] == rest[i]);
                    if rest[i] == x {
                        assert(rest.contains(x));
                    }
                }
            }
        }
    }
}

/// A seal that is no destination of any allocation collects no amount and no
/// indices.
pub proof fn lemma_absent_key(allocs: Seq<(OutPoint, u64)>, key: OutPoint)
    requires
        !assignment_keys(allocs).contains(key),
    ensures
        sum_towards(allocs, key) == 0,
        indices_towards(allocs, key) == Seq::<u16>::empty(),
    decreases allocs.len(),
{
    if allocs.len() == 0 {
        assert(indices_towards(allocs, key) =~= Seq::<u16>::empty());
    } else {
        let rest = assignment_keys(allocs.drop_last());
        let x = allocs.last().0;
        if rest.contains(x) {
            assert(assignment_keys(allocs) == rest);
            assert(x != key);
        } else {
            assert(assignment_keys(allocs) == rest.push(x));
            assert(x != key) by {
                if x == key {
                    assert(rest.push(x)[rest.len() as int] == key);
                    assert(assignment_keys(allocs).contains(key));
                }
            }
            assert(!rest.contains(key)) by {
                if rest.contains(key) {
                    let i = choose|i: int| 0 <= i < rest.len() && rest[i] == key;
                    assert(rest.push(x)[i] == key);
                    assert(assignment_keys(allocs).contains(key));
                }
            }
        }
        lemma_absent_key(allocs.drop_last(), key);
    }
}

/// How one more allocation changes the per-key sums, the per-key index
/// lists and the key order.
pub proof fn lemma_aggregation_step(prefix: Seq<(OutPoint, u64)>, item: (OutPoint, u64))
    ensures
        forall|kk: OutPoint| #[trigger] sum_towards(prefix.push(item), kk) == sum_towards(
            prefix,
            kk,
        ) + (if kk == item.0 {
            item.1 as int
        } else {
            0
        }),
        forall|kk: OutPoint| #[trigger] indices_towards(prefix.push(item), kk) == (if kk
            == item.0 {
            indices_towards(prefix, kk).push(prefix.len() as u16)
        } else {
            indices_towards(prefix, kk)
        }),
        assignment_keys(prefix.push(item)) == (if assignment_keys(prefix).contains(item.0) {
            assignment_keys(prefix)
        } else {
            assignment_keys(prefix).push(item.0)
        }),
{
    let s = prefix.push(item);
    assert(s.drop_last() =~= prefix);
    assert(s.last() == item);
    assert(s.len() == prefix.len() + 1);
    assert forall|kk: OutPoint| #[trigger] sum_towards(s, kk) == sum_towards(prefix, kk) + (if kk
        == item.0 {
        item.1 as int
    } else {
        0
    }) by {
        assert(sum_towards(s, kk) == sum_towards(s.drop_last(), kk) + (if s.last().0 == kk {
            s.last().1 as int
        } else {
            0
        }));
    }
    assert forall|kk: OutPoint| #[trigger] indices_towards(s, kk) == (if kk == item.0 {
        indices_towards(prefix, kk).push(prefix.len() as u16)
    } else {
        indices_towards(prefix, kk)
    }) by {
        assert(indices_towards(s, kk) == (if s.last().0 == kk {
            indices_towards(s.drop_last(), kk).push((s.len() - 1) as u16)
        } else {
            indices_towards(s.drop_last(), kk)
        }));
    }
}

/// Position of the entry for `key`, if one exists.
fn find_seal(r: &Vec<InflationAssignment>, key: OutPoint) -> (pos: Option<usize>)
    ensures
        match pos {
            Some(j) => j < r@.len() && views_of(r@)[j as int].seal == key,
            None => forall|i: int| 0 <= i < r@.len() ==> views_of(r@)[i].seal != key,
        },
{
    let mut t: usize = 0;
    while t < r.len()
        invariant
            t <= r@.len(),
            forall|i: int| 0 <= i < t ==> views_of(r@)[i].seal != key,
        decreases r@.len() - t,
    {
        if r[t].seal == key {
            return Some(t);
        }
        t += 1;
    }
    None
}

/// Aggregate resolved inflation allocations by destination seal: sum the
/// amounts per seal (saturating at the largest atomic value) and record the
/// contributing slot indices, with the seals in first-encounter order.
pub fn aggregate_assignments(allocs: &Vec<(OutPoint, u64)>) -> (r: Vec<InflationAssignment>)
    requires
        allocs@.len() <= 0x10000,
    ensures
        is_aggregated(allocs@, views_of(r@)),
{
    let n = allocs.len();
    let mut r: Vec<InflationAssignment> = Vec::new();
    proof {
        assert(allocs@.take(0) =~= Seq::<(OutPoint, u64)>::empty());
        assert(views_of(r@) =~= Seq::<AssignmentView>::empty());
    }
    let mut k: usize = 0;
    while k < n
        invariant
            n == allocs@.len(),
            n <= 0x10000,
            k <= n,
            is_aggregated(allocs@.take(k as int), views_of(r@)),
        decreases n - k,
    {
        let key = allocs[k].0;
        let amt = allocs[k].1;
        let ghost s0 = allocs@.take(k as int);
        let ghost s1 = allocs@.take(k as int + 1);
        proof {
            assert(s0.len() == k);
            assert(s1 =~= s0.push(allocs@[k as int]));
            lemma_aggregation_step(s0, allocs@[k as int]);
            lemma_assignment_keys_distinct(s0);
        }
        match find_seal(&r, key) {
            Some(j) => {
                let ghost r0 = r@;
                proof {
                    assert(assignment_keys(s0)[j as int] == key);
                    assert(assignment_keys(s0).contains(key));
                    assert(assignment_keys(s1) == assignment_keys(s0));
                    lemma_sum_towards_nonneg(s0, key);
                }
                let e = r.remove(j);
                let new_amount = e.amount.saturating_add(amt);
                let mut iv = e.indices;
                iv.push(k as u16);
                r.insert(j, InflationAssignment { seal: e.seal, amount: new_amount, indices: iv });
                proof {
                    let e2 = AssignmentView {
                        seal: key,
                        amount: clamped(sum_towards(s1, key)),
                        indices: indices_towards(s1, key),
                    };
                    assert(r@ =~= r0.update(j as int, r@[j as int]));
                    assert(r@[j as int]@ == e2);
                    assert forall|i: int| 0 <= i < views_of(r@).len() implies #[trigger] views_of(
                        r@,
                    )[i] == (AssignmentView {
                        seal: assignment_keys(s1)[i],
                        amount: clamped(sum_towards(s1, assignment_keys(s1)[i])),
                        indices: indices_towards(s1, assignment_keys(s1)[i]),
                    }) by {
                        if i == j {
                            assert(views_of(r@)[i] == e2);
                        } else {
                            assert(views_of(r@)[i] == views_of(r0)[i]);
                            assert(assignment_keys(s0)[i] != key);
                        }
                    }
                }
            },
            None => {
                let ghost r0 = r@;
                proof {
                    assert(!assignment_keys(s0).contains(key)) by {
                        if assignment_keys(s0).contains(key) {
                            let i = choose|i: int|
                                0 <= i < assignment_keys(s0).len() && assignment_keys(s0)[i]
                                    == key;
                            assert(views_of(r0)[i].seal == key);
                        }
                    }
                    assert(assignment_keys(s1) == assignment_keys(s0).push(key));
                    lemma_absent_key(s0, key);
                }
                let mut iv: Vec<u16> = Vec::new();
                iv.push(k as u16);
                r.push(InflationAssignment { seal: key, amount: amt, indices: iv });
                proof {
                    assert(r@ =~= r0.push(r@[r0.len() as int]));
                    assert(iv@ =~= Seq::<u16>::empty().push(k as u16));
                    assert forall|i: int| 0 <= i < views_of(r@).len() implies #[trigger] views_of(
                        r@,
                    )[i] == (AssignmentView {
                        seal: assignment_keys(s1)[i],
                        amount: clamped(sum_towards(s1, assignment_keys(s1)[i])),
                        indices: indices_towards(s1, assignment_keys(s1)[i]),
                    }) by {
                        if i < r0.len() {
                            assert(views_of(r@)[i] == views_of(r0)[i]);
                            assert(assignment_keys(s0)[i] == assignment_keys(s1)[i]);
                            assert(assignment_keys(s0)[i] != key) by {
                                if assignment_keys(s0)[i] == key {
                                    assert(assignment_keys(s0).contains(key));
                                }
                            }
                        } else {
                            assert(i == r0.len());
                            assert(views_of(r@)[i] == r@[i]@);
                            assert(assignment_keys(s1)[i] == key);
                        }
                    }
                }
            },
        }
        k += 1;
    }
    proof {
        assert(allocs@.take(n as int) =~= allocs@);
    }
    r
}

} // verus!
