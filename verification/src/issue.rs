//! Issuance records: one primary (genesis) or secondary (inflation)
//! issuance event.

use vstd::prelude::*;
use crate::error::Error;
use crate::inflation::AssignmentView;
use crate::inflation::InflationAssignment;
use crate::inflation::aggregate_assignments;
use crate::inflation::is_aggregated;
use crate::inflation::lemma_assignment_keys_distinct;
use crate::inflation::views_of;
use crate::operation::Genesis;
use crate::operation::Transition;
use crate::operation::ValueAllocation;
use crate::seal::ContractId;
use crate::seal::NodeId;
use crate::seal::OutPoint;
use crate::seal::Txid;

verus! {

/// True when some inflation-right slot is still blinded.
pub open spec fn any_confidential_value(s: Seq<ValueAllocation>) -> bool {
    exists|i: int| 0 <= i < s.len() && s[i] is Confidential
}

/// True when some inflation-right seal is witness-relative; meaningful only
/// when no slot is blinded.
pub open spec fn any_witness_relative(s: Seq<ValueAllocation>) -> bool {
    exists|i: int| 0 <= i < s.len() && s[i]->Revealed_seal.is_witness_relative()
}

/// The (outpoint, amount) pairs of inflation allocations once resolved
/// against the witness transaction; meaningful only when no slot is blinded.
pub open spec fn resolved_allocations(s: Seq<ValueAllocation>, witness: Txid) -> Seq<
    (OutPoint, u64),
> {
    s.map_values(|a: ValueAllocation| (a->Revealed_seal.outpoint(witness), a->Revealed_amount))
}

/// The (outpoint, amount) pairs of genesis inflation allocations, whose
/// seals must already be absolute; meaningful only when no slot is blinded
/// and no seal is witness-relative.
pub open spec fn resolved_genesis_allocations(s: Seq<ValueAllocation>) -> Seq<(OutPoint, u64)> {
    s.map_values(|a: ValueAllocation| (a->Revealed_seal.absolute_outpoint(), a->Revealed_amount))
}

/// Resolve a transition's inflation allocations against its witness
/// transaction, refusing the whole list when any slot is blinded.
fn resolve_transition_allocations(
    allocs: &Vec<ValueAllocation>,
    witness: Txid,
    id: NodeId,
) -> (r: Result<Vec<(OutPoint, u64)>, Error>)
    ensures
        r is Err <==> any_confidential_value(allocs@),
        r is Err ==> r->Err_0 == Error::InflationAssignmentConfidential(id),
        r is Ok ==> r->Ok_0@ == resolved_allocations(allocs@, witness),
{
    let n = allocs.len();
    let mut out: Vec<(OutPoint, u64)> = Vec::new();
    proof {
        assert(out@ =~= resolved_allocations(allocs@.take(0), witness));
    }
    let mut k: usize = 0;
    while k < n
        invariant
            n == allocs@.len(),
            k <= n,
            forall|i: int| 0 <= i < k ==> !(allocs@[i] is Confidential),
            out@ == resolved_allocations(allocs@.take(k as int), witness),
        decreases n - k,
    {
        match allocs[k] {
            ValueAllocation::Confidential => {
                return Err(Error::InflationAssignmentConfidential(id));
            },
            ValueAllocation::Revealed { seal, amount } => {
                let op = seal.to_outpoint(witness);
                out.push((op, amount));
                proof {
                    assert(out@ =~= resolved_allocations(allocs@.take(k as int + 1), witness));
                }
            },
        }
        k += 1;
    }
    proof {
        assert(allocs@.take(n as int) =~= allocs@);
    }
    Ok(out)
}

/// Resolve a genesis's inflation allocations, which must already be
/// absolute: the whole list is refused when any slot is blinded, and a
/// witness-relative seal cannot be resolved (a genesis has no witness).
fn resolve_genesis_allocations(allocs: &Vec<ValueAllocation>, id: NodeId) -> (r: Result<
    Vec<(OutPoint, u64)>,
    Error,
>)
    ensures
        any_confidential_value(allocs@) ==> r is Err && r->Err_0
            == Error::InflationAssignmentConfidential(id),
        !any_confidential_value(allocs@) && any_witness_relative(allocs@) ==> r is Err && r->Err_0
            == Error::UnresolvedGenesisSeal(id),
        r is Ok <==> !any_confidential_value(allocs@) && !any_witness_relative(allocs@),
        r is Ok ==> r->Ok_0@ == resolved_genesis_allocations(allocs@),
{
    let n = allocs.len();
    let mut k: usize = 0;
    while k < n
        invariant
            n == allocs@.len(),
            k <= n,
            forall|i: int| 0 <= i < k ==> !(allocs@[i] is Confidential),
        decreases n - k,
    {
        match allocs[k] {
            ValueAllocation::Confidential => {
                return Err(Error::InflationAssignmentConfidential(id));
            },
            ValueAllocation::Revealed { seal: _, amount: _ } => {},
        }
        k += 1;
    }
    let mut out: Vec<(OutPoint, u64)> = Vec::new();
    proof {
        assert(out@ =~= resolved_genesis_allocations(allocs@.take(0)));
    }
    let mut j: usize = 0;
    while j < n
        invariant
            n == allocs@.len(),
            j <= n,
            forall|i: int| 0 <= i < n ==> !(allocs@[i] is Confidential),
            forall|i: int| 0 <= i < j ==> !(allocs@[i]->Revealed_seal.is_witness_relative()),
            out@ == resolved_genesis_allocations(allocs@.take(j as int)),
        decreases n - j,
    {
        match allocs[j] {
            ValueAllocation::Confidential => {
                return Err(Error::InflationAssignmentConfidential(id));
            },
            ValueAllocation::Revealed { seal, amount } => {
                match seal.to_absolute_outpoint() {
                    None => {
                        return Err(Error::UnresolvedGenesisSeal(id));
                    },
                    Some(op) => {
                        out.push((op, amount));
                        proof {
                            assert(out@ =~= resolved_genesis_allocations(
                                allocs@.take(j as int + 1),
                            ));
                        }
                    },
                }
            },
        }
        j += 1;
    }
    proof {
        assert(allocs@.take(n as int) =~= allocs@);
    }
    Ok(out)
}

/// Mathematical image of an [`Issue`].
pub struct IssueView {
    /// Identity of the operation that performed the issuance.
    pub node_id: NodeId,
    /// Identity of the governing contract.
    pub contract_id: ContractId,
    /// Amount of the asset issued.
    pub amount: u64,
    /// Outpoints whose spending authorized the issue; empty exactly for a
    /// primary (genesis) issue.
    pub closes: Seq<OutPoint>,
    /// Inflation rights the issue re-delegates, one entry per destination
    /// seal.
    pub inflation_assignments: Seq<AssignmentView>,
    /// Witness transaction id; absent for a genesis issue.
    pub witness: Option<Txid>,
}

impl IssueView {
    /// A primary issue is one defined by the genesis itself.
    pub open spec fn is_primary(self) -> bool {
        self.closes.len() == 0
    }

    /// A secondary issue is one performed by an inflation transition.
    pub open spec fn is_secondary(self) -> bool {
        self.closes.len() != 0
    }

    /// Well-formedness: the delegated inflation rights go to distinct seals.
    pub open spec fn wf(self) -> bool {
        forall|i: int, j: int|
            0 <= i < j < self.inflation_assignments.len()
                ==> (#[trigger] self.inflation_assignments[i]).seal
                != (#[trigger] self.inflation_assignments[j]).seal
    }
}

/// One asset issuance event, primary (declared by the genesis) or secondary
/// (performed by spending an inflation right).
///
/// Immutable once constructed: the fields are bound by client-side
/// validation commitments and cannot change.
#[derive(Clone, Debug)]
pub struct Issue {
    node_id: NodeId,
    contract_id: ContractId,
    amount: u64,
    closes: Vec<OutPoint>,
    inflation_assignments: Vec<InflationAssignment>,
    witness: Option<Txid>,
}

impl View for Issue {
    type V = IssueView;

    closed spec fn view(&self) -> IssueView {
        IssueView {
            node_id: self.node_id,
            contract_id: self.contract_id,
            amount: self.amount,
            closes: self.closes@,
            inflation_assignments: views_of(self.inflation_assignments@),
            witness: self.witness,
        }
    }
}

impl Issue {
    /// Extract a secondary issue from an issuance transition: the issued
    /// amount comes from the issued-supply metadata field, and the
    /// re-delegated inflation rights are resolved against the witness
    /// transaction and aggregated by destination seal. `closes` is the set
    /// of outpoints whose spending authorized the issue.
    pub fn with(
        contract_id: ContractId,
        closes: Vec<OutPoint>,
        transition: &Transition,
        witness: Txid,
    ) -> (r: Result<Issue, Error>)
        requires
            transition.inflation_allocations@.len() <= 0x10000,
        ensures
            r is Err <==> (transition.issued_supply@.len() == 0 || any_confidential_value(
                transition.inflation_allocations@,
            )),
            r is Err ==> r->Err_0 == (if transition.issued_supply@.len() == 0 {
                Error::UnsatisfiedSchemaRequirement
            } else {
                Error::InflationAssignmentConfidential(transition.node_id)
            }),
            r is Ok ==> ({
                let v = r->Ok_0@;
                &&& v.node_id == transition.node_id
                &&& v.contract_id == contract_id
                &&& v.amount == transition.issued_supply@[0]
                &&& v.closes == closes@
                &&& v.witness == Some(witness)
                &&& is_aggregated(
                    resolved_allocations(transition.inflation_allocations@, witness),
                    v.inflation_assignments,
                )
                &&& v.wf()
            }),
    {
        let id = transition.node_id;
        if transition.issued_supply.len() == 0 {
            return Err(Error::UnsatisfiedSchemaRequirement);
        }
        let amount = transition.issued_supply[0];
        let resolved = match resolve_transition_allocations(
            &transition.inflation_allocations,
            witness,
            id,
        ) {
            Ok(v) => v,
            Err(e) => {
                return Err(e);
            },
        };
        let assignments = aggregate_assignments(&resolved);
        proof {
            lemma_assignment_keys_distinct(resolved@);
        }
        Ok(
            Issue {
                node_id: id,
                contract_id,
                amount,
                closes,
                inflation_assignments: assignments,
                witness: Some(witness),
            },
        )
    }

    /// Extract the primary issue from a genesis: the issued amount comes
    /// from the issued-supply metadata field, the genesis-declared inflation
    /// rights must carry absolute seals, and `closes` is empty.
    pub fn from_genesis(genesis: &Genesis) -> (r: Result<Issue, Error>)
        requires
            genesis.inflation_allocations@.len() <= 0x10000,
        ensures
            r is Err <==> (genesis.issued_supply@.len() == 0 || any_confidential_value(
                genesis.inflation_allocations@,
            ) || any_witness_relative(genesis.inflation_allocations@)),
            r is Err ==> r->Err_0 == (if genesis.issued_supply@.len() == 0 {
                Error::UnsatisfiedSchemaRequirement
            } else if any_confidential_value(genesis.inflation_allocations@) {
                Error::InflationAssignmentConfidential(genesis.node_id)
            } else {
                Error::UnresolvedGenesisSeal(genesis.node_id)
            }),
            r is Ok ==> ({
                let v = r->Ok_0@;
                &&& v.node_id == genesis.node_id
                &&& v.contract_id == genesis.contract_id
                &&& v.amount == genesis.issued_supply@[0]
                &&& v.closes == Seq::<OutPoint>::empty()
                &&& v.witness is None
                &&& is_aggregated(
                    resolved_genesis_allocations(genesis.inflation_allocations@),
                    v.inflation_assignments,
                )
                &&& v.wf()
            }),
    {
        let id = genesis.node_id;
        if genesis.issued_supply.len() == 0 {
            return Err(Error::UnsatisfiedSchemaRequirement);
        }
        let amount = genesis.issued_supply[0];
        let resolved = match resolve_genesis_allocations(&genesis.inflation_allocations, id) {
            Ok(v) => v,
            Err(e) => {
                return Err(e);
            },
        };
        let assignments = aggregate_assignments(&resolved);
        proof {
            lemma_assignment_keys_distinct(resolved@);
        }
        Ok(
            Issue {
                node_id: id,
                contract_id: genesis.contract_id,
                amount,
                closes: Vec::new(),
                inflation_assignments: assignments,
                witness: None,
            },
        )
    }

    /// Identity of the operation that performed the issuance.
    pub fn node_id(&self) -> (r: NodeId)
        ensures
            r == self@.node_id,
    {
        self.node_id
    }

    /// Identity of the governing contract.
    pub fn contract_id(&self) -> (r: ContractId)
        ensures
            r == self@.contract_id,
    {
        self.contract_id
    }

    /// Amount of the asset issued.
    pub fn amount(&self) -> (r: u64)
        ensures
            r == self@.amount,
    {
        self.amount
    }

    /// Outpoints whose spending authorized the issue.
    pub fn closes(&self) -> (r: &Vec<OutPoint>)
        ensures
            r@ == self@.closes,
    {
        &self.closes
    }

    /// The inflation rights this issue re-delegates, one entry per
    /// destination seal, in first-encounter order.
    pub fn inflation_assignments(&self) -> (r: &Vec<InflationAssignment>)
        ensures
            views_of(r@) == self@.inflation_assignments,
    {
        &self.inflation_assignments
    }

    /// Witness transaction id; absent for a genesis issue.
    pub fn witness(&self) -> (r: Option<Txid>)
        ensures
            r == self@.witness,
    {
        self.witness
    }

    /// Whether the issue is primary, i.e. defined by the genesis.
    pub fn is_primary(&self) -> (r: bool)
        ensures
            r == self@.is_primary(),
    {
        self.closes.len() == 0
    }

    /// Whether the issue is secondary, i.e. performed by an inflation
    /// transition.
    pub fn is_secondary(&self) -> (r: bool)
        ensures
            r == self@.is_secondary(),
    {
        self.closes.len() != 0
    }
}

/// Every issue is either primary or secondary, never both and never
/// neither.
pub proof fn lemma_issue_primary_xor_secondary(v: IssueView)
    ensures
        v.is_primary() != v.is_secondary(),
{
}

} // verus!
