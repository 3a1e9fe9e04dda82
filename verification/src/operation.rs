//! The data this library reads out of validated contract operations.
//!
//! The external validation engine hands the caller genesis and
//! state-transition objects; the caller presents them here as plain values:
//! the operation identity, the metadata fields and the owned-rights
//! allocations that supply accounting inspects. Allocations may still be
//! confidential (blinded); extraction refuses to aggregate blinded data.

use vstd::prelude::*;
use crate::seal::RevealedSeal;
use crate::seal::NodeId;
use crate::seal::ContractId;

verus! {

/// The subtype tag of a state transition, as declared by the contract schema.
#[derive(Clone, Copy, PartialEq, Eq, Structural, Hash, Debug)]
pub enum TransitionKind {
    /// Secondary issuance performed by spending an inflation right.
    Issue,
    /// Opens a new burn & replace epoch.
    OpenEpoch,
    /// Pure burn: removes units from circulation.
    Burn,
    /// Burn with (partial) replacement of the burned units.
    BurnAndReplace,
    /// Any other transition subtype (transfer, renomination, ...).
    Other,
}

/// An owned-rights slot carrying a seal together with an attached amount:
/// one inflation-right allocation. Either part may still be blinded.
#[derive(Clone, Copy, PartialEq, Eq, Structural, Hash, Debug)]
pub enum ValueAllocation {
    /// Seal and amount are both revealed.
    Revealed { seal: RevealedSeal, amount: u64 },
    /// The seal or the amount is blinded and unusable for aggregation.
    Confidential,
}

/// An owned-rights slot carrying a bare seal (a declarative right, such as
/// the right to open the next epoch). The seal may still be blinded.
#[derive(Clone, Copy, PartialEq, Eq, Structural, Hash, Debug)]
pub enum SealAllocation {
    /// The seal is revealed.
    Revealed { seal: RevealedSeal },
    /// The seal is blinded.
    Confidential,
}

/// The data an issuance or supply computation reads from a genesis.
#[derive(Clone, Debug)]
pub struct Genesis {
    /// Identity of the genesis operation.
    pub node_id: NodeId,
    /// Identity of the contract the genesis declares.
    pub contract_id: ContractId,
    /// Values of the issued-supply metadata field, in declaration order.
    pub issued_supply: Vec<u64>,
    /// Inflation-right allocations, in declaration order.
    pub inflation_allocations: Vec<ValueAllocation>,
}

/// The data supply accounting reads from a state transition.
#[derive(Clone, Debug)]
pub struct Transition {
    /// Identity of the transition.
    pub node_id: NodeId,
    /// Schema subtype of the transition.
    pub kind: TransitionKind,
    /// Values of the issued-supply metadata field, in declaration order.
    pub issued_supply: Vec<u64>,
    /// Values of the burned-supply metadata field, in declaration order.
    pub burned_supply: Vec<u64>,
    /// Inflation-right allocations, in declaration order.
    pub inflation_allocations: Vec<ValueAllocation>,
    /// Open-epoch right allocations, in declaration order.
    pub epoch_allocations: Vec<SealAllocation>,
    /// Burn/replace right allocations, in declaration order.
    pub burn_allocations: Vec<SealAllocation>,
}

/// True when some declarative-right slot is still blinded.
pub open spec fn any_confidential_seal(s: Seq<SealAllocation>) -> bool {
    exists|i: int| 0 <= i < s.len() && s[i] is Confidential
}

/// The seal of the first declarative-right slot, if any; meaningful only
/// when no slot is blinded.
pub open spec fn first_seal(s: Seq<SealAllocation>) -> Option<RevealedSeal> {
    if s.len() == 0 {
        None
    } else {
        Some(s[0]->Revealed_seal)
    }
}

/// The first declarative-right seal resolved against the witness
/// transaction, if any; meaningful only when no slot is blinded.
pub open spec fn resolved_first_seal(s: Seq<SealAllocation>, witness: crate::seal::Txid) -> Option<
    crate::seal::OutPoint,
> {
    match first_seal(s) {
        None => None,
        Some(rs) => Some(rs.outpoint(witness)),
    }
}

/// Scan a declarative right's allocations and return its first revealed
/// seal. The whole list is refused when any of its slots is blinded:
/// accounting may not proceed on partially blinded data.
pub fn first_revealed_seal(allocs: &Vec<SealAllocation>) -> (r: Result<Option<RevealedSeal>, ()>)
    ensures
        r is Err <==> any_confidential_seal(allocs@),
        r is Ok ==> r->Ok_0 == first_seal(allocs@),
{
    let n = allocs.len();
    let mut first: Option<RevealedSeal> = None;
    let mut k: usize = 0;
    while k < n
        invariant
            n == allocs@.len(),
            k <= n,
            forall|i: int| 0 <= i < k ==> !(allocs@[i] is Confidential),
            first == (if k == 0 { None } else { first_seal(allocs@) }),
        decreases n - k,
    {
        match allocs[k] {
            SealAllocation::Confidential => {
                return Err(());
            },
            SealAllocation::Revealed { seal } => {
                if k == 0 {
                    first = Some(seal);
                }
            },
        }
        k += 1;
    }
    Ok(first)
}

} // verus!
