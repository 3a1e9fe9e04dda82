//! Extraction of Issue, Epoch and BurnReplace records from operation data.

use rgb20::burn::BurnReplace;
use rgb20::epoch::Epoch;
use rgb20::error::Error;
use rgb20::issue::Issue;
use rgb20::operation::Genesis;
use rgb20::operation::SealAllocation;
use rgb20::operation::Transition;
use rgb20::operation::TransitionKind;
use rgb20::operation::ValueAllocation;
use rgb20::seal::ContractId;
use rgb20::seal::NodeId;
use rgb20::seal::OutPoint;
use rgb20::seal::RevealedSeal;
use rgb20::seal::Txid;

fn txid(n: u64) -> Txid {
    Txid { w0: n, w1: 0, w2: 0, w3: 0 }
}

fn nid(n: u64) -> NodeId {
    NodeId { w0: n, w1: 0, w2: 0, w3: 0 }
}

fn cid(n: u64) -> ContractId {
    ContractId { w0: n, w1: 0, w2: 0, w3: 0 }
}

fn bare_transition(node: u64, kind: TransitionKind) -> Transition {
    Transition {
        node_id: nid(node),
        kind,
        issued_supply: vec![],
        burned_supply: vec![],
        inflation_allocations: vec![],
        epoch_allocations: vec![],
        burn_allocations: vec![],
    }
}

fn seal_at(tx: u64, vout: u32) -> RevealedSeal {
    RevealedSeal::TxOutpoint { txid: txid(tx), vout, blinding: 7 }
}

#[test]
fn genesis_issue_without_inflation() {
    let genesis = Genesis {
        node_id: nid(1),
        contract_id: cid(2),
        issued_supply: vec![1000],
        inflation_allocations: vec![],
    };
    let issue = Issue::from_genesis(&genesis).unwrap();
    assert_eq!(issue.amount(), 1000);
    assert!(issue.closes().is_empty());
    assert!(issue.inflation_assignments().is_empty());
    assert_eq!(issue.witness(), None);
    assert!(issue.is_primary());
    assert!(!issue.is_secondary());
    assert_eq!(issue.node_id(), nid(1));
    assert_eq!(issue.contract_id(), cid(2));
}

#[test]
fn issue_primary_xor_secondary() {
    let genesis = Genesis {
        node_id: nid(1),
        contract_id: cid(2),
        issued_supply: vec![10],
        inflation_allocations: vec![],
    };
    let primary = Issue::from_genesis(&genesis).unwrap();
    assert!(primary.is_primary() != primary.is_secondary());

    let mut t = bare_transition(3, TransitionKind::Issue);
    t.issued_supply = vec![5];
    let closes = vec![OutPoint { txid: txid(9), vout: 0 }];
    let secondary = Issue::with(cid(2), closes, &t, txid(4)).unwrap();
    assert!(secondary.is_secondary());
    assert!(secondary.is_primary() != secondary.is_secondary());
    assert_eq!(secondary.witness(), Some(txid(4)));
}

#[test]
fn inflation_assignments_aggregate_by_seal() {
    let mut t = bare_transition(1, TransitionKind::Issue);
    t.issued_supply = vec![10];
    t.inflation_allocations = vec![
        ValueAllocation::Revealed { seal: seal_at(5, 1), amount: 30 },
        ValueAllocation::Revealed {
            seal: RevealedSeal::TxOutpoint { txid: txid(5), vout: 1, blinding: 99 },
            amount: 70,
        },
        ValueAllocation::Revealed { seal: seal_at(6, 0), amount: 11 },
    ];
    let issue = Issue::with(cid(2), vec![], &t, txid(4)).unwrap();
    let assignments = issue.inflation_assignments();
    assert_eq!(assignments.len(), 2);
    assert_eq!(assignments[0].seal, OutPoint { txid: txid(5), vout: 1 });
    assert_eq!(assignments[0].amount, 100);
    assert_eq!(assignments[0].indices, vec![0, 1]);
    assert_eq!(assignments[1].seal, OutPoint { txid: txid(6), vout: 0 });
    assert_eq!(assignments[1].amount, 11);
    assert_eq!(assignments[1].indices, vec![2]);
}

#[test]
fn inflation_seal_relative_to_witness_resolves() {
    let mut t = bare_transition(1, TransitionKind::Issue);
    t.issued_supply = vec![10];
    t.inflation_allocations = vec![ValueAllocation::Revealed {
        seal: RevealedSeal::WitnessVout { vout: 3, blinding: 0 },
        amount: 8,
    }];
    let issue = Issue::with(cid(2), vec![], &t, txid(4)).unwrap();
    let assignments = issue.inflation_assignments();
    assert_eq!(assignments[0].seal, OutPoint { txid: txid(4), vout: 3 });
}

#[test]
fn issue_missing_supply_field_is_schema_violation() {
    let t = bare_transition(1, TransitionKind::Issue);
    let r = Issue::with(cid(2), vec![], &t, txid(4));
    assert_eq!(r.unwrap_err(), Error::UnsatisfiedSchemaRequirement);

    let genesis = Genesis {
        node_id: nid(1),
        contract_id: cid(2),
        issued_supply: vec![],
        inflation_allocations: vec![],
    };
    let r = Issue::from_genesis(&genesis);
    assert_eq!(r.unwrap_err(), Error::UnsatisfiedSchemaRequirement);
}

#[test]
fn confidential_inflation_is_refused() {
    let mut t = bare_transition(1, TransitionKind::Issue);
    t.issued_supply = vec![10];
    t.inflation_allocations = vec![
        ValueAllocation::Revealed { seal: seal_at(5, 1), amount: 30 },
        ValueAllocation::Confidential,
    ];
    let r = Issue::with(cid(2), vec![], &t, txid(4));
    assert_eq!(r.unwrap_err(), Error::InflationAssignmentConfidential(nid(1)));
}

#[test]
fn genesis_witness_relative_seal_is_refused() {
    let genesis = Genesis {
        node_id: nid(1),
        contract_id: cid(2),
        issued_supply: vec![10],
        inflation_allocations: vec![ValueAllocation::Revealed {
            seal: RevealedSeal::WitnessVout { vout: 0, blinding: 0 },
            amount: 5,
        }],
    };
    let r = Issue::from_genesis(&genesis);
    assert_eq!(r.unwrap_err(), Error::UnresolvedGenesisSeal(nid(1)));
}

#[test]
fn genesis_confidential_outranks_unresolved_seal() {
    let genesis = Genesis {
        node_id: nid(1),
        contract_id: cid(2),
        issued_supply: vec![10],
        inflation_allocations: vec![
            ValueAllocation::Revealed {
                seal: RevealedSeal::WitnessVout { vout: 0, blinding: 0 },
                amount: 5,
            },
            ValueAllocation::Confidential,
        ],
    };
    let r = Issue::from_genesis(&genesis);
    assert_eq!(r.unwrap_err(), Error::InflationAssignmentConfidential(nid(1)));
}

#[test]
fn epoch_seals_derive_final_and_unlocked() {
    let closes = OutPoint { txid: txid(9), vout: 0 };

    let mut open_both = bare_transition(1, TransitionKind::OpenEpoch);
    open_both.epoch_allocations = vec![SealAllocation::Revealed { seal: seal_at(5, 0) }];
    open_both.burn_allocations = vec![SealAllocation::Revealed {
        seal: RevealedSeal::WitnessVout { vout: 2, blinding: 0 },
    }];
    let epoch = Epoch::with(cid(2), 1, closes, &open_both, vec![], txid(4)).unwrap();
    assert_eq!(epoch.no(), 1);
    assert_eq!(epoch.epoch_seal(), Some(OutPoint { txid: txid(5), vout: 0 }));
    assert_eq!(epoch.seal(), Some(OutPoint { txid: txid(4), vout: 2 }));
    assert!(!epoch.is_final());
    assert!(epoch.is_unlocked());
    assert!(epoch.known_operations().is_empty());

    let closed = bare_transition(3, TransitionKind::OpenEpoch);
    let last = Epoch::with(cid(2), 2, closes, &closed, vec![], txid(4)).unwrap();
    assert_eq!(last.epoch_seal(), None);
    assert_eq!(last.seal(), None);
    assert!(last.is_final());
    assert!(!last.is_unlocked());
}

#[test]
fn epoch_confidential_seals_are_refused() {
    let closes = OutPoint { txid: txid(9), vout: 0 };

    let mut t = bare_transition(1, TransitionKind::OpenEpoch);
    t.epoch_allocations = vec![SealAllocation::Confidential];
    let r = Epoch::with(cid(2), 1, closes, &t, vec![], txid(4));
    assert_eq!(r.unwrap_err(), Error::EpochSealConfidential(nid(1)));

    let mut t = bare_transition(1, TransitionKind::OpenEpoch);
    t.burn_allocations = vec![SealAllocation::Confidential];
    let r = Epoch::with(cid(2), 1, closes, &t, vec![], txid(4));
    assert_eq!(r.unwrap_err(), Error::BurnSealConfidential(nid(1)));
}

#[test]
fn pure_burn_supply_change() {
    let closes = OutPoint { txid: txid(9), vout: 0 };

    let mut absent = bare_transition(1, TransitionKind::Burn);
    absent.burned_supply = vec![500];
    let b = BurnReplace::with(cid(2), nid(7), 1, closes, &absent, txid(4)).unwrap();
    assert_eq!(b.burned_amount(), 500);
    assert_eq!(b.replaced_amount(), 0);
    assert_eq!(b.supply_change(), 500);
    assert!(!b.does_replacement());
    assert!(b.is_final());
    assert_eq!(b.seal(), None);

    let mut zero = bare_transition(1, TransitionKind::Burn);
    zero.burned_supply = vec![500];
    zero.issued_supply = vec![0];
    let b = BurnReplace::with(cid(2), nid(7), 1, closes, &zero, txid(4)).unwrap();
    assert_eq!(b.supply_change(), 500);
}

#[test]
fn burn_and_replace_supply_change() {
    let closes = OutPoint { txid: txid(9), vout: 0 };
    let mut t = bare_transition(1, TransitionKind::BurnAndReplace);
    t.burned_supply = vec![500];
    t.issued_supply = vec![200];
    t.burn_allocations = vec![SealAllocation::Revealed { seal: seal_at(5, 1) }];
    let b = BurnReplace::with(cid(2), nid(7), 1, closes, &t, txid(4)).unwrap();
    assert_eq!(b.burned_amount(), 500);
    assert_eq!(b.replaced_amount(), 200);
    assert_eq!(b.supply_change(), 300);
    assert!(b.does_replacement());
    assert!(!b.is_final());
    assert_eq!(b.seal(), Some(OutPoint { txid: txid(5), vout: 1 }));
    assert_eq!(b.epoch_id(), nid(7));
}

#[test]
fn burn_missing_fields_are_schema_violations() {
    let closes = OutPoint { txid: txid(9), vout: 0 };

    let t = bare_transition(1, TransitionKind::Burn);
    let r = BurnReplace::with(cid(2), nid(7), 1, closes, &t, txid(4));
    assert_eq!(r.unwrap_err(), Error::UnsatisfiedSchemaRequirement);

    let mut t = bare_transition(1, TransitionKind::BurnAndReplace);
    t.burned_supply = vec![500];
    let r = BurnReplace::with(cid(2), nid(7), 1, closes, &t, txid(4));
    assert_eq!(r.unwrap_err(), Error::UnsatisfiedSchemaRequirement);
}

#[test]
fn burn_confidential_seal_is_refused() {
    let closes = OutPoint { txid: txid(9), vout: 0 };
    let mut t = bare_transition(1, TransitionKind::Burn);
    t.burned_supply = vec![500];
    t.burn_allocations = vec![SealAllocation::Confidential];
    let r = BurnReplace::with(cid(2), nid(7), 1, closes, &t, txid(4));
    assert_eq!(r.unwrap_err(), Error::BurnSealConfidential(nid(1)));
}

#[test]
fn replacement_above_burn_is_refused() {
    let closes = OutPoint { txid: txid(9), vout: 0 };
    let mut t = bare_transition(1, TransitionKind::BurnAndReplace);
    t.burned_supply = vec![200];
    t.issued_supply = vec![500];
    let r = BurnReplace::with(cid(2), nid(7), 1, closes, &t, txid(4));
    assert_eq!(r.unwrap_err(), Error::ReplacementExceedsBurn(nid(1)));
}
