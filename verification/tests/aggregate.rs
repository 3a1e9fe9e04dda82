//! The Supply snapshot: folding the known history and reading it back.

use rgb20::burn::BurnReplace;
use rgb20::epoch::Epoch;
use rgb20::issue::Issue;
use rgb20::operation::Genesis;
use rgb20::operation::Transition;
use rgb20::operation::TransitionKind;
use rgb20::operation::ValueAllocation;
use rgb20::seal::ContractId;
use rgb20::seal::NodeId;
use rgb20::seal::OutPoint;
use rgb20::seal::RevealedSeal;
use rgb20::seal::Txid;
use rgb20::supply::Supply;
use rgb20::supply::SupplyMeasure;

fn txid(n: u64) -> Txid {
    Txid { w0: n, w1: 0, w2: 0, w3: 0 }
}

fn nid(n: u64) -> NodeId {
    NodeId { w0: n, w1: 0, w2: 0, w3: 0 }
}

fn cid(n: u64) -> ContractId {
    ContractId { w0: n, w1: 0, w2: 0, w3: 0 }
}

fn genesis_issue(amount: u64, allowances: &[u64]) -> Issue {
    let inflation_allocations = allowances
        .iter()
        .enumerate()
        .map(|(i, a)| ValueAllocation::Revealed {
            seal: RevealedSeal::TxOutpoint { txid: txid(100 + i as u64), vout: 0, blinding: 0 },
            amount: *a,
        })
        .collect();
    let genesis = Genesis {
        node_id: nid(1),
        contract_id: cid(2),
        issued_supply: vec![amount],
        inflation_allocations,
    };
    Issue::from_genesis(&genesis).unwrap()
}

fn burn_op(burned: u64, replaced: u64) -> BurnReplace {
    let kind = if replaced > 0 { TransitionKind::BurnAndReplace } else { TransitionKind::Burn };
    let t = Transition {
        node_id: nid(50),
        kind,
        issued_supply: vec![replaced],
        burned_supply: vec![burned],
        inflation_allocations: vec![],
        epoch_allocations: vec![],
        burn_allocations: vec![],
    };
    let closes = OutPoint { txid: txid(9), vout: 0 };
    BurnReplace::with(cid(2), nid(40), 1, closes, &t, txid(4)).unwrap()
}

fn epoch_with_ops(ops: Vec<BurnReplace>) -> Epoch {
    let t = Transition {
        node_id: nid(40),
        kind: TransitionKind::OpenEpoch,
        issued_supply: vec![],
        burned_supply: vec![],
        inflation_allocations: vec![],
        epoch_allocations: vec![],
        burn_allocations: vec![],
    };
    let closes = OutPoint { txid: txid(9), vout: 1 };
    Epoch::with(cid(2), 1, closes, &t, ops, txid(4)).unwrap()
}

#[test]
fn total_circulating_needs_asserted_completeness() {
    let unassessed = Supply::with(700, None, 1800);
    assert_eq!(unassessed.total_circulating(), None);
    let incomplete = Supply::with(700, Some(false), 1800);
    assert_eq!(incomplete.total_circulating(), None);
    let complete = Supply::with(700, Some(true), 1800);
    assert_eq!(complete.total_circulating(), Some(700));
    assert_eq!(complete.known_circulating(), 700);
    assert_eq!(complete.issue_limit(), 1800);
    assert_eq!(complete.is_known(), Some(true));
}

#[test]
fn measure_selects_the_figure() {
    let supply = Supply::with(700, Some(false), 1800);
    assert_eq!(supply.measure(SupplyMeasure::KnownCirculating), Some(700));
    assert_eq!(supply.measure(SupplyMeasure::TotalCirculating), None);
    assert_eq!(supply.measure(SupplyMeasure::IssueLimit), Some(1800));
}

#[test]
fn issue_limit_sums_genesis_and_allowances() {
    let issues = vec![genesis_issue(1000, &[500, 300])];
    let supply = Supply::compute(&issues, &vec![], Some(true));
    assert_eq!(supply.issue_limit(), 1800);
    assert_eq!(supply.known_circulating(), 1000);
    assert_eq!(supply.total_circulating(), Some(1000));
}

#[test]
fn known_circulating_subtracts_burns() {
    let issues = vec![genesis_issue(1000, &[])];
    let epochs = vec![epoch_with_ops(vec![burn_op(500, 0), burn_op(500, 200)])];
    let supply = Supply::compute(&issues, &epochs, Some(false));
    assert_eq!(supply.known_circulating(), 200);
    assert_eq!(supply.total_circulating(), None);
    assert_eq!(supply.issue_limit(), 1000);
}

#[test]
fn empty_history_yields_empty_supply() {
    let supply = Supply::compute(&vec![], &vec![], None);
    assert_eq!(supply.known_circulating(), 0);
    assert_eq!(supply.issue_limit(), 0);
    assert_eq!(supply.total_circulating(), None);
}

#[test]
fn sums_saturate_at_the_largest_amount() {
    let issues = vec![genesis_issue(u64::MAX, &[]), genesis_issue(5, &[])];
    let supply = Supply::compute(&issues, &vec![], Some(true));
    assert_eq!(supply.known_circulating(), u64::MAX);
    assert_eq!(supply.issue_limit(), u64::MAX);
}

#[test]
fn burns_above_issues_floor_at_zero() {
    let issues = vec![genesis_issue(100, &[])];
    let epochs = vec![epoch_with_ops(vec![burn_op(500, 0)])];
    let supply = Supply::compute(&issues, &epochs, Some(false));
    assert_eq!(supply.known_circulating(), 0);
}
