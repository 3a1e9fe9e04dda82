//! Burn & replace epochs: numbered windows during which burn and
//! burn-and-replace operations are permitted.

use vstd::prelude::*;
use crate::burn::BurnReplace;
use crate::burn::BurnReplaceView;
use crate::error::Error;
use crate::operation::Transition;
use crate::operation::any_confidential_seal;
use crate::operation::first_revealed_seal;
use crate::operation::resolved_first_seal;
use crate::seal::ContractId;
use crate::seal::NodeId;
use crate::seal::OutPoint;
use crate::seal::Txid;

verus! {

/// Mathematical image of an [`Epoch`].
pub struct EpochView {
    /// Identity of the transition that opened the epoch.
    pub node_id: NodeId,
    /// Sequential number of the epoch; there is no epoch zero.
    pub no: usize,
    /// Identity of the governing contract.
    pub contract_id: ContractId,
    /// Outpoint whose spending opened the epoch.
    pub closes: OutPoint,
    /// Seal whose spending opens the next epoch; absent when no successor
    /// epoch is possible.
    pub epoch_seal: Option<OutPoint>,
    /// Seal whose spending starts the epoch's first burn/replace operation;
    /// absent when the epoch permits none.
    pub seal: Option<OutPoint>,
    /// The burn/replace operations of the epoch known so far, in sequence;
    /// never asserted to be complete.
    pub known_operations: Seq<BurnReplaceView>,
    /// Witness transaction id.
    pub witness: Txid,
}

impl EpochView {
    /// Whether the epoch is the last one: no successor epoch can be opened.
    pub open spec fn is_final(self) -> bool {
        self.epoch_seal is None
    }

    /// Whether the epoch permits burn/replace operations.
    pub open spec fn is_unlocked(self) -> bool {
        self.seal is Some
    }

    /// Well-formedness: epochs are numbered from one, and every known
    /// operation is itself well formed.
    pub open spec fn wf(self) -> bool {
        &&& self.no >= 1
        &&& forall|i: int|
            0 <= i < self.known_operations.len() ==> (#[trigger] self.known_operations[i]).wf()
    }
}

/// One burn & replace epoch.
///
/// Immutable once constructed: the fields are bound by client-side
/// validation commitments and cannot change. The list of known operations
/// reflects whatever the caller has discovered so far; this library never
/// asserts that it is complete.
#[derive(Clone, Debug)]
pub struct Epoch {
    node_id: NodeId,
    no: usize,
    contract_id: ContractId,
    closes: OutPoint,
    epoch_seal: Option<OutPoint>,
    seal: Option<OutPoint>,
    known_operations: Vec<BurnReplace>,
    witness: Txid,
}

impl View for Epoch {
    type V = EpochView;

    closed spec fn view(&self) -> EpochView {
        EpochView {
            node_id: self.node_id,
            no: self.no,
            contract_id: self.contract_id,
            closes: self.closes,
            epoch_seal: self.epoch_seal,
            seal: self.seal,
            known_operations: self.known_operations@.map_values(|b: BurnReplace| b@),
            witness: self.witness,
        }
    }
}

impl Epoch {
    /// Extract an epoch record from the transition that opened it.
    ///
    /// The open-epoch right, when present, must be revealed and resolves to
    /// the seal of the next epoch; the burn/replace right, when present,
    /// must be revealed and resolves to the seal of the epoch's first
    /// operation. Whether the epoch is final or unlocked is derived purely
    /// from the presence of those seals. `operations` is whatever sequence
    /// of the epoch's burn/replace operations the caller has discovered.
    pub fn with(
        contract_id: ContractId,
        no: usize,
        closes: OutPoint,
        transition: &Transition,
        operations: Vec<BurnReplace>,
        witness: Txid,
    ) -> (r: Result<Epoch, Error>)
        requires
            no >= 1,
            forall|i: int| 0 <= i < operations@.len() ==> (#[trigger] operations@[i])@.wf(),
        ensures
            r is Err <==> (any_confidential_seal(transition.epoch_allocations@)
                || any_confidential_seal(transition.burn_allocations@)),
            r is Err ==> r->Err_0 == (if any_confidential_seal(transition.epoch_allocations@) {
                Error::EpochSealConfidential(transition.node_id)
            } else {
                Error::BurnSealConfidential(transition.node_id)
            }),
            r is Ok ==> ({
                let v = r->Ok_0@;
                &&& v.node_id == transition.node_id
                &&& v.no == no
                &&& v.contract_id == contract_id
                &&& v.closes == closes
                &&& v.epoch_seal == resolved_first_seal(transition.epoch_allocations@, witness)
                &&& v.seal == resolved_first_seal(transition.burn_allocations@, witness)
                &&& v.known_operations == operations@.map_values(|b: BurnReplace| b@)
                &&& v.witness == witness
                &&& v.is_final() == (v.epoch_seal is None)
                &&& v.is_unlocked() == (v.seal is Some)
                &&& v.wf()
            }),
    {
        let id = transition.node_id;
        let epoch_seal = match first_revealed_seal(&transition.epoch_allocations) {
            Err(()) => {
                return Err(Error::EpochSealConfidential(id));
            },
            Ok(None) => None,
            Ok(Some(s)) => Some(s.to_outpoint(witness)),
        };
        let seal = match first_revealed_seal(&transition.burn_allocations) {
            Err(()) => {
                return Err(Error::BurnSealConfidential(id));
            },
            Ok(None) => None,
            Ok(Some(s)) => Some(s.to_outpoint(witness)),
        };
        Ok(
            Epoch {
                node_id: id,
                no,
                contract_id,
                closes,
                epoch_seal,
                seal,
                known_operations: operations,
                witness,
            },
        )
    }

    /// Identity of the transition that opened the epoch.
    pub fn node_id(&self) -> (r: NodeId)
        ensures
            r == self@.node_id,
    {
        self.node_id
    }

    /// Sequential number of the epoch.
    pub fn no(&self) -> (r: usize)
        ensures
            r == self@.no,
    {
        self.no
    }

    /// Identity of the governing contract.
    pub fn contract_id(&self) -> (r: ContractId)
        ensures
            r == self@.contract_id,
    {
        self.contract_id
    }

    /// Outpoint whose spending opened the epoch.
    pub fn closes(&self) -> (r: OutPoint)
        ensures
            r == self@.closes,
    {
        self.closes
    }

    /// Seal whose spending opens the next epoch, if any.
    pub fn epoch_seal(&self) -> (r: Option<OutPoint>)
        ensures
            r == self@.epoch_seal,
    {
        self.epoch_seal
    }

    /// Seal whose spending starts the epoch's first burn/replace operation,
    /// if any.
    pub fn seal(&self) -> (r: Option<OutPoint>)
        ensures
            r == self@.seal,
    {
        self.seal
    }

    /// The burn/replace operations of the epoch known so far.
    pub fn known_operations(&self) -> (r: &Vec<BurnReplace>)
        ensures
            r@.map_values(|b: BurnReplace| b@) == self@.known_operations,
    {
        &self.known_operations
    }

    /// Witness transaction id.
    pub fn witness(&self) -> (r: Txid)
        ensures
            r == self@.witness,
    {
        self.witness
    }

    /// Whether the epoch is the last one: no successor can be opened.
    pub fn is_final(&self) -> (r: bool)
        ensures
            r == self@.is_final(),
    {
        self.epoch_seal.is_none()
    }

    /// Whether the epoch permits burn/replace operations.
    pub fn is_unlocked(&self) -> (r: bool)
        ensures
            r == self@.is_unlocked(),
    {
        self.seal.is_some()
    }
}

/// An epoch is final exactly when it carries no next-epoch seal, and
/// unlocked exactly when it carries a first-operation seal.
pub proof fn lemma_epoch_consistency(v: EpochView)
    ensures
        v.is_final() == (v.epoch_seal is None),
        v.is_unlocked() == (v.seal is Some),
{
}

} // verus!
