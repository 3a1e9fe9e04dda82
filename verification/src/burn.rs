//! Burn and burn-and-replace records: one supply-reducing operation within
//! an epoch.

use vstd::prelude::*;
use crate::error::Error;
use crate::operation::Transition;
use crate::operation::TransitionKind;
use crate::operation::any_confidential_seal;
use crate::operation::first_revealed_seal;
use crate::operation::resolved_first_seal;
use crate::seal::ContractId;
use crate::seal::NodeId;
use crate::seal::OutPoint;
use crate::seal::Txid;

verus! {

/// Mathematical image of a [`BurnReplace`].
pub struct BurnReplaceView {
    /// Identity of the transition that performed the operation.
    pub node_id: NodeId,
    /// Identity of the transition that opened the owning epoch.
    pub epoch_id: NodeId,
    /// Sequential number of the operation within its epoch.
    pub no: usize,
    /// Identity of the governing contract.
    pub contract_id: ContractId,
    /// Outpoint whose spending authorized the operation.
    pub closes: OutPoint,
    /// Whether the operation replaces part of the burned amount.
    pub does_replacement: bool,
    /// Amount burned by the operation.
    pub burned_amount: u64,
    /// Amount re-issued in replacement; zero for a pure burn.
    pub replaced_amount: u64,
    /// Net reduction of the circulating supply.
    pub supply_change: u64,
    /// Seal enabling the next operation of the epoch; absent when the
    /// operation is the epoch's last.
    pub seal: Option<OutPoint>,
    /// Witness transaction id.
    pub witness: Txid,
}

impl BurnReplaceView {
    /// Whether the operation is the final one of its epoch.
    pub open spec fn is_final(self) -> bool {
        self.seal is None
    }

    /// Well-formedness: no more is replaced than burned, and the recorded
    /// net change is exactly the difference.
    pub open spec fn wf(self) -> bool {
        &&& self.replaced_amount <= self.burned_amount
        &&& self.supply_change == self.burned_amount - self.replaced_amount
    }
}

/// One burn or burn-and-replace operation within an epoch.
///
/// Immutable once constructed: the fields are bound by client-side
/// validation commitments and cannot change.
#[derive(Clone, Copy, Debug)]
pub struct BurnReplace {
    node_id: NodeId,
    epoch_id: NodeId,
    no: usize,
    contract_id: ContractId,
    closes: OutPoint,
    does_replacement: bool,
    burned_amount: u64,
    replaced_amount: u64,
    supply_change: u64,
    seal: Option<OutPoint>,
    witness: Txid,
}

impl View for BurnReplace {
    type V = BurnReplaceView;

    closed spec fn view(&self) -> BurnReplaceView {
        BurnReplaceView {
            node_id: self.node_id,
            epoch_id: self.epoch_id,
            no: self.no,
            contract_id: self.contract_id,
            closes: self.closes,
            does_replacement: self.does_replacement,
            burned_amount: self.burned_amount,
            replaced_amount: self.replaced_amount,
            supply_change: self.supply_change,
            seal: self.seal,
            witness: self.witness,
        }
    }
}

impl BurnReplace {
    /// Extract a burn or burn-and-replace record from its transition.
    ///
    /// The burned amount comes from the burned-supply metadata field, which
    /// the schema requires. The replaced amount comes from the issued-supply
    /// field; a replace operation must carry it, while for a pure burn its
    /// absence means zero. The seal enabling the epoch's next operation,
    /// when present, must be revealed; and a replaced amount above the
    /// burned amount is refused as nonconforming.
    pub fn with(
        contract_id: ContractId,
        epoch_id: NodeId,
        no: usize,
        closes: OutPoint,
        transition: &Transition,
        witness: Txid,
    ) -> (r: Result<BurnReplace, Error>)
        ensures
            r is Err <==> (any_confidential_seal(transition.burn_allocations@)
                || transition.burned_supply@.len() == 0 || (transition.kind is BurnAndReplace
                && transition.issued_supply@.len() == 0) || ({
                let replaced = if transition.issued_supply@.len() == 0 {
                    0u64
                } else {
                    transition.issued_supply@[0]
                };
                transition.burned_supply@.len() > 0 && replaced > transition.burned_supply@[0]
            })),
            r is Err ==> r->Err_0 == (if any_confidential_seal(transition.burn_allocations@) {
                Error::BurnSealConfidential(transition.node_id)
            } else if transition.burned_supply@.len() == 0 || (transition.kind is BurnAndReplace
                && transition.issued_supply@.len() == 0) {
                Error::UnsatisfiedSchemaRequirement
            } else {
                Error::ReplacementExceedsBurn(transition.node_id)
            }),
            r is Ok ==> ({
                let v = r->Ok_0@;
                &&& v.node_id == transition.node_id
                &&& v.epoch_id == epoch_id
                &&& v.no == no
                &&& v.contract_id == contract_id
                &&& v.closes == closes
                &&& v.does_replacement == (transition.kind is BurnAndReplace)
                &&& v.burned_amount == transition.burned_supply@[0]
                &&& v.replaced_amount == (if transition.issued_supply@.len() == 0 {
                    0u64
                } else {
                    transition.issued_supply@[0]
                })
                &&& v.supply_change == v.burned_amount - v.replaced_amount
                &&& v.seal == resolved_first_seal(transition.burn_allocations@, witness)
                &&& v.witness == witness
                &&& v.wf()
            }),
    {
        let id = transition.node_id;
        let seal = match first_revealed_seal(&transition.burn_allocations) {
            Err(()) => {
                return Err(Error::BurnSealConfidential(id));
            },
            Ok(None) => None,
            Ok(Some(s)) => Some(s.to_outpoint(witness)),
        };
        let does_replacement = transition.kind == TransitionKind::BurnAndReplace;
        if transition.burned_supply.len() == 0 {
            return Err(Error::UnsatisfiedSchemaRequirement);
        }
        let burned_amount = transition.burned_supply[0];
        let replaced_amount = if transition.issued_supply.len() == 0 {
            if does_replacement {
                return Err(Error::UnsatisfiedSchemaRequirement);
            }
            0u64
        } else {
            transition.issued_supply[0]
        };
        if replaced_amount > burned_amount {
            return Err(Error::ReplacementExceedsBurn(id));
        }
        Ok(
            BurnReplace {
                node_id: id,
                epoch_id,
                no,
                contract_id,
                closes,
                does_replacement,
                burned_amount,
                replaced_amount,
                supply_change: burned_amount - replaced_amount,
                seal,
                witness,
            },
        )
    }

    /// Identity of the transition that performed the operation.
    pub fn node_id(&self) -> (r: NodeId)
        ensures
            r == self@.node_id,
    {
        self.node_id
    }

    /// Identity of the transition that opened the owning epoch.
    pub fn epoch_id(&self) -> (r: NodeId)
        ensures
            r == self@.epoch_id,
    {
        self.epoch_id
    }

    /// Sequential number of the operation within its epoch.
    pub fn no(&self) -> (r: usize)
        ensures
            r == self@.no,
    {
        self.no
    }

    /// Identity of the governing contract.
    pub fn contract_id(&self) -> (r: ContractId)
        ensures
            r == self@.contract_id,
    {
        self.contract_id
    }

    /// Outpoint whose spending authorized the operation.
    pub fn closes(&self) -> (r: OutPoint)
        ensures
            r == self@.closes,
    {
        self.closes
    }

    /// Whether the operation replaces part of the burned amount.
    pub fn does_replacement(&self) -> (r: bool)
        ensures
            r == self@.does_replacement,
    {
        self.does_replacement
    }

    /// Amount burned by the operation.
    pub fn burned_amount(&self) -> (r: u64)
        ensures
            r == self@.burned_amount,
    {
        self.burned_amount
    }

    /// Amount re-issued in replacement; zero for a pure burn.
    pub fn replaced_amount(&self) -> (r: u64)
        ensures
            r == self@.replaced_amount,
    {
        self.replaced_amount
    }

    /// Net reduction of the circulating supply.
    pub fn supply_change(&self) -> (r: u64)
        ensures
            r == self@.supply_change,
    {
        self.supply_change
    }

    /// Seal enabling the next operation of the epoch, if any.
    pub fn seal(&self) -> (r: Option<OutPoint>)
        ensures
            r == self@.seal,
    {
        self.seal
    }

    /// Witness transaction id.
    pub fn witness(&self) -> (r: Txid)
        ensures
            r == self@.witness,
    {
        self.witness
    }

    /// Whether the operation is the final one of its epoch.
    pub fn is_final(&self) -> (r: bool)
        ensures
            r == self@.is_final(),
    {
        self.seal.is_none()
    }
}

/// A burn/replace record is final exactly when it carries no successor
/// seal, and its supply change is exactly the burned amount less the
/// replaced amount, which never exceeds it.
pub proof fn lemma_burn_replace_consistency(v: BurnReplaceView)
    requires
        v.wf(),
    ensures
        v.is_final() == (v.seal is None),
        v.supply_change == v.burned_amount - v.replaced_amount,
        v.replaced_amount <= v.burned_amount,
{
}

} // verus!
