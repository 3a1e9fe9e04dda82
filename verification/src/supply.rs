//! The supply snapshot: known circulating amount, completeness flag and
//! issue limit, folded from the known issuance and burn/replace history.

use vstd::prelude::*;
use crate::burn::BurnReplaceView;
use crate::epoch::Epoch;
use crate::epoch::EpochView;
use crate::inflation::AssignmentView;
use crate::inflation::clamped;
use crate::issue::Issue;
use crate::issue::IssueView;

verus! {

/// Which supply figure a caller asks for: a pure dispatch key.
#[derive(Clone, Copy, PartialEq, Eq, Structural, Hash, Debug)]
pub enum SupplyMeasure {
    /// Supply known to be issued, minus all known burns, plus known
    /// replacements.
    KnownCirculating,
    /// The precise circulating supply: available only when all
    /// supply-changing operations are known.
    TotalCirculating,
    /// Maximum amount that could ever be issued: genesis issuance plus all
    /// declared inflation allowances.
    IssueLimit,
}

/// Mathematical image of a [`Supply`].
pub struct SupplyView {
    /// Sum of the known issuances minus the known net burns.
    pub known_circulating: u64,
    /// Tri-state completeness: `None` when visibility was never assessed,
    /// `Some(false)` when assessed and incomplete, `Some(true)` when the
    /// known history is the whole history.
    pub is_known: Option<bool>,
    /// Maximum amount that could ever be issued.
    pub issue_limit: u64,
}

impl SupplyView {
    /// The precise circulating supply: the known amount when completeness
    /// is asserted, unknown otherwise.
    pub open spec fn total_circulating(self) -> Option<u64> {
        if self.is_known == Some(true) {
            Some(self.known_circulating)
        } else {
            None
        }
    }
}

/// Extended supply information derived from the known contract data.
///
/// A point-in-time snapshot: it is rebuilt, never updated, when the
/// underlying history grows.
#[derive(Clone, Copy, PartialEq, Eq, Hash, Debug)]
pub struct Supply {
    known_circulating: u64,
    is_known: Option<bool>,
    issue_limit: u64,
}

impl View for Supply {
    type V = SupplyView;

    closed spec fn view(&self) -> SupplyView {
        SupplyView {
            known_circulating: self.known_circulating,
            is_known: self.is_known,
            issue_limit: self.issue_limit,
        }
    }
}

/// The views of a sequence of issues.
pub open spec fn issue_views(s: Seq<Issue>) -> Seq<IssueView> {
    s.map_values(|i: Issue| i@)
}

/// The views of a sequence of epochs.
pub open spec fn epoch_views(s: Seq<Epoch>) -> Seq<EpochView> {
    s.map_values(|e: Epoch| e@)
}

/// Sum of the issued amounts.
pub open spec fn sum_issued(issues: Seq<IssueView>) -> int
    decreases issues.len(),
{
    if issues.len() == 0 {
        0
    } else {
        sum_issued(issues.drop_last()) + issues.last().amount
    }
}

/// Sum of the delegated inflation allowances of one issue.
pub open spec fn sum_assignment_amounts(assigns: Seq<AssignmentView>) -> int
    decreases assigns.len(),
{
    if assigns.len() == 0 {
        0
    } else {
        sum_assignment_amounts(assigns.drop_last()) + assigns.last().amount
    }
}

/// What one issue contributes to the issue limit: its amount when it is the
/// primary issue (a secondary issue only consumes an allowance already
/// counted), plus all inflation allowances it re-delegates.
pub open spec fn issue_limit_contribution(v: IssueView) -> int {
    (if v.is_primary() {
        v.amount as int
    } else {
        0
    }) + sum_assignment_amounts(v.inflation_assignments)
}

/// Sum of the issue-limit contributions.
pub open spec fn sum_issue_limits(issues: Seq<IssueView>) -> int
    decreases issues.len(),
{
    if issues.len() == 0 {
        0
    } else {
        sum_issue_limits(issues.drop_last()) + issue_limit_contribution(issues.last())
    }
}

/// Sum of the net supply changes of a sequence of burn/replace operations.
pub open spec fn sum_op_changes(ops: Seq<BurnReplaceView>) -> int
    decreases ops.len(),
{
    if ops.len() == 0 {
        0
    } else {
        sum_op_changes(ops.drop_last()) + ops.last().supply_change
    }
}

/// Sum of the net supply changes of all known operations of all epochs.
pub open spec fn sum_epoch_changes(epochs: Seq<EpochView>) -> int
    decreases epochs.len(),
{
    if epochs.len() == 0 {
        0
    } else {
        sum_epoch_changes(epochs.drop_last()) + sum_op_changes(epochs.last().known_operations)
    }
}

proof fn lemma_sum_issued_nonneg(issues: Seq<IssueView>)
    ensures
        sum_issued(issues) >= 0,
    decreases issues.len(),
{
    if issues.len() > 0 {
        lemma_sum_issued_nonneg(issues.drop_last());
    }
}

proof fn lemma_sum_assignment_amounts_nonneg(assigns: Seq<AssignmentView>)
    ensures
        sum_assignment_amounts(assigns) >= 0,
    decreases assigns.len(),
{
    if assigns.len() > 0 {
        lemma_sum_assignment_amounts_nonneg(assigns.drop_last());
    }
}

proof fn lemma_sum_issue_limits_nonneg(issues: Seq<IssueView>)
    ensures
        sum_issue_limits(issues) >= 0,
    decreases issues.len(),
{
    if issues.len() > 0 {
        lemma_sum_issue_limits_nonneg(issues.drop_last());
        lemma_sum_assignment_amounts_nonneg(issues.last().inflation_assignments);
    }
}

proof fn lemma_sum_op_changes_nonneg(ops: Seq<BurnReplaceView>)
    ensures
        sum_op_changes(ops) >= 0,
    decreases ops.len(),
{
    if ops.len() > 0 {
        lemma_sum_op_changes_nonneg(ops.drop_last());
    }
}

proof fn lemma_sum_epoch_changes_nonneg(epochs: Seq<EpochView>)
    ensures
        sum_epoch_changes(epochs) >= 0,
    decreases epochs.len(),
{
    if epochs.len() > 0 {
        lemma_sum_epoch_changes_nonneg(epochs.drop_last());
        lemma_sum_op_changes_nonneg(epochs.last().known_operations);
    }
}

impl Supply {
    /// Assemble a snapshot from already-computed figures.
    pub fn with(known_circulating: u64, is_known: Option<bool>, issue_limit: u64) -> (r: Supply)
        ensures
            r@.known_circulating == known_circulating,
            r@.is_known == is_known,
            r@.issue_limit == issue_limit,
    {
        Supply { known_circulating, is_known, issue_limit }
    }

    /// Sum of the known issuances minus the known net burns.
    pub fn known_circulating(&self) -> (r: u64)
        ensures
            r == self@.known_circulating,
    {
        self.known_circulating
    }

    /// Whether all supply-changing operations are known: `None` when never
    /// assessed, `Some(false)` when assessed and incomplete, `Some(true)`
    /// when complete.
    pub fn is_known(&self) -> (r: Option<bool>)
        ensures
            r == self@.is_known,
    {
        self.is_known
    }

    /// Maximum amount that could ever be issued.
    pub fn issue_limit(&self) -> (r: u64)
        ensures
            r == self@.issue_limit,
    {
        self.issue_limit
    }

    /// The precise circulating supply: equal to the known circulating
    /// supply when all supply-changing operations are known, and `None`
    /// otherwise.
    pub fn total_circulating(&self) -> (r: Option<u64>)
        ensures
            r == self@.total_circulating(),
    {
        match self.is_known {
            Some(true) => Some(self.known_circulating),
            _ => None,
        }
    }

    /// The figure selected by `measure`.
    pub fn measure(&self, measure: SupplyMeasure) -> (r: Option<u64>)
        ensures
            r == (match measure {
                SupplyMeasure::KnownCirculating => Some(self@.known_circulating),
                SupplyMeasure::TotalCirculating => self@.total_circulating(),
                SupplyMeasure::IssueLimit => Some(self@.issue_limit),
            }),
    {
        match measure {
            SupplyMeasure::KnownCirculating => Some(self.known_circulating),
            SupplyMeasure::TotalCirculating => self.total_circulating(),
            SupplyMeasure::IssueLimit => Some(self.issue_limit),
        }
    }

    /// Fold the known history into a snapshot.
    ///
    /// The known circulating supply is the sum of the issued amounts less
    /// the sum of the net supply changes of every known burn/replace
    /// operation; the issue limit is the primary issuance plus every
    /// delegated inflation allowance. Sums saturate at the largest atomic
    /// value, and a burn total above the issue total floors at zero.
    /// Completeness is the caller's assessment: this library cannot itself
    /// know whether the history is exhaustive.
    pub fn compute(issues: &Vec<Issue>, epochs: &Vec<Epoch>, is_known: Option<bool>) -> (r: Supply)
        ensures
            r@.is_known == is_known,
            r@.known_circulating == ({
                let issued = clamped(sum_issued(issue_views(issues@)));
                let burned = clamped(sum_epoch_changes(epoch_views(epochs@)));
                if issued >= burned {
                    (issued - burned) as u64
                } else {
                    0u64
                }
            }),
            r@.issue_limit == clamped(sum_issue_limits(issue_views(issues@))),
    {
        let ghost ivs = issue_views(issues@);
        let ghost evs = epoch_views(epochs@);

        let n_issues = issues.len();
        let mut issued_total: u64 = 0;
        let mut limit_total: u64 = 0;
        proof {
            assert(ivs.take(0) =~= Seq::<IssueView>::empty());
        }
        let mut k: usize = 0;
        while k < n_issues
            invariant
                n_issues == issues@.len(),
                k <= n_issues,
                ivs == issue_views(issues@),
                issued_total == clamped(sum_issued(ivs.take(k as int))),
                limit_total == clamped(sum_issue_limits(ivs.take(k as int))),
            decreases n_issues - k,
        {
            let issue = &issues[k];
            let ghost iv = ivs[k as int];
            proof {
                assert(iv == issues@[k as int]@);
                assert(ivs.take(k as int + 1) =~= ivs.take(k as int).push(iv));
                assert(ivs.take(k as int + 1).drop_last() =~= ivs.take(k as int));
                lemma_sum_issued_nonneg(ivs.take(k as int));
                lemma_sum_issue_limits_nonneg(ivs.take(k as int));
            }
            issued_total = issued_total.saturating_add(issue.amount());
            proof {
                assert(sum_issued(ivs.take(k as int + 1)) == sum_issued(ivs.take(k as int))
                    + iv.amount);
            }
            if issue.is_primary() {
                limit_total = limit_total.saturating_add(issue.amount());
            }
            let assigns = issue.inflation_assignments();
            let n_assigns = assigns.len();
            let ghost avs = iv.inflation_assignments;
            proof {
                assert(avs.take(0) =~= Seq::<AssignmentView>::empty());
                assert(avs.len() == n_assigns);
            }
            let mut t: usize = 0;
            while t < n_assigns
                invariant
                    n_assigns == avs.len(),
                    n_assigns == assigns@.len(),
                    t <= n_assigns,
                    avs == crate::inflation::views_of(assigns@),
                    limit_total == clamped(
                        sum_issue_limits(ivs.take(k as int)) + (if iv.is_primary() {
                            iv.amount as int
                        } else {
                            0
                        }) + sum_assignment_amounts(avs.take(t as int)),
                    ),
                decreases n_assigns - t,
            {
                let ghost base = sum_issue_limits(ivs.take(k as int)) + (if iv.is_primary() {
                    iv.amount as int
                } else {
                    0
                });
                proof {
                    assert(avs[t as int] == assigns@[t as int]@);
                    assert(avs.take(t as int + 1) =~= avs.take(t as int).push(avs[t as int]));
                    assert(avs.take(t as int + 1).drop_last() =~= avs.take(t as int));
                    assert(sum_assignment_amounts(avs.take(t as int + 1))
                        == sum_assignment_amounts(avs.take(t as int)) + avs[t as int].amount);
                    lemma_sum_issue_limits_nonneg(ivs.take(k as int));
                    lemma_sum_assignment_amounts_nonneg(avs.take(t as int));
                }
                limit_total = limit_total.saturating_add(assigns[t].amount);
                t += 1;
            }
            proof {
                assert(avs.take(n_assigns as int) =~= avs);
                assert(sum_issue_limits(ivs.take(k as int + 1)) == sum_issue_limits(
                    ivs.take(k as int),
                ) + issue_limit_contribution(iv));
            }
            k += 1;
        }
        proof {
            assert(ivs.take(n_issues as int) =~= ivs);
        }

        let n_epochs = epochs.len();
        let mut burned_total: u64 = 0;
        proof {
            assert(evs.take(0) =~= Seq::<EpochView>::empty());
        }
        let mut e: usize = 0;
        while e < n_epochs
            invariant
                n_epochs == epochs@.len(),
                e <= n_epochs,
                evs == epoch_views(epochs@),
                burned_total == clamped(sum_epoch_changes(evs.take(e as int))),
            decreases n_epochs - e,
        {
            let epoch = &epochs[e];
            let ghost ev = evs[e as int];
            let ops = epoch.known_operations();
            let n_ops = ops.len();
            proof {
                assert(ev == epochs@[e as int]@);
                assert(ev.known_operations.take(0) =~= Seq::<BurnReplaceView>::empty());
                assert(ev.known_operations.len() == n_ops);
            }
            let mut t: usize = 0;
            while t < n_ops
                invariant
                    n_ops == ev.known_operations.len(),
                    n_ops == ops@.len(),
                    t <= n_ops,
                    ev.known_operations == ops@.map_values(|b: crate::burn::BurnReplace| b@),
                    burned_total == clamped(
                        sum_epoch_changes(evs.take(e as int)) + sum_op_changes(
                            ev.known_operations.take(t as int),
                        ),
                    ),
                decreases n_ops - t,
            {
                let ghost ovs = ev.known_operations;
                proof {
                    assert(ovs[t as int] == ops@[t as int]@);
                    assert(ovs.take(t as int + 1) =~= ovs.take(t as int).push(ovs[t as int]));
                    assert(ovs.take(t as int + 1).drop_last() =~= ovs.take(t as int));
                    assert(sum_op_changes(ovs.take(t as int + 1)) == sum_op_changes(
                        ovs.take(t as int),
                    ) + ovs[t as int].supply_change);
                    lemma_sum_epoch_changes_nonneg(evs.take(e as int));
                    lemma_sum_op_changes_nonneg(ovs.take(t as int));
                }
                let op = ops[t];
                burned_total = burned_total.saturating_add(op.supply_change());
                t += 1;
            }
            proof {
                assert(ev.known_operations.take(n_ops as int) =~= ev.known_operations);
                assert(evs.take(e as int + 1) =~= evs.take(e as int).push(ev));
                assert(evs.take(e as int + 1).drop_last() =~= evs.take(e as int));
                assert(sum_epoch_changes(evs.take(e as int + 1)) == sum_epoch_changes(
                    evs.take(e as int),
                ) + sum_op_changes(ev.known_operations));
            }
            e += 1;
        }
        proof {
            assert(evs.take(n_epochs as int) =~= evs);
        }

        let known_circulating = issued_total.saturating_sub(burned_total);
        Supply { known_circulating, is_known, issue_limit: limit_total }
    }
}

/// The precise circulating supply is exposed exactly when completeness is
/// asserted, and then equals the known circulating supply.
pub proof fn lemma_total_circulating(v: SupplyView)
    ensures
        v.is_known != Some(true) ==> v.total_circulating() is None,
        v.is_known == Some(true) ==> v.total_circulating() == Some(v.known_circulating),
{
}

} // verus!
