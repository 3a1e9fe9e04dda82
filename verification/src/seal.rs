//! Identifiers and single-use-seal references.
//!
//! All identifiers are opaque 256-bit values compared by equality only; they
//! are carried here as four 64-bit words.

use vstd::prelude::*;

verus! {

/// Identifier of the witness transaction anchoring an operation.
#[derive(Clone, Copy, PartialEq, Eq, Structural, Hash, Debug)]
pub struct Txid {
    pub w0: u64,
    pub w1: u64,
    pub w2: u64,
    pub w3: u64,
}

/// Identifier of the contract operation (genesis or transition) that
/// produced a record.
#[derive(Clone, Copy, PartialEq, Eq, Structural, Hash, Debug)]
pub struct NodeId {
    pub w0: u64,
    pub w1: u64,
    pub w2: u64,
    pub w3: u64,
}

/// Identifier of the governing contract.
#[derive(Clone, Copy, PartialEq, Eq, Structural, Hash, Debug)]
pub struct ContractId {
    pub w0: u64,
    pub w1: u64,
    pub w2: u64,
    pub w3: u64,
}

/// A transaction output reference: transaction id plus output index.
#[derive(Clone, Copy, PartialEq, Eq, Structural, Hash, Debug)]
pub struct OutPoint {
    pub txid: Txid,
    pub vout: u32,
}

/// A revealed single-use seal: a commitment to a transaction output whose
/// spending authorizes exactly one downstream operation.
///
/// A seal is either bound to an output of an explicitly named transaction,
/// or to an output of the operation's own witness transaction, which is only
/// known once the operation is anchored.
#[derive(Clone, Copy, PartialEq, Eq, Structural, Hash, Debug)]
pub enum RevealedSeal {
    /// Seal over an output of an explicitly named transaction.
    TxOutpoint { txid: Txid, vout: u32, blinding: u64 },
    /// Seal over an output of the operation's own witness transaction.
    WitnessVout { vout: u32, blinding: u64 },
}

impl RevealedSeal {
    /// Whether the seal is relative to the witness transaction.
    pub open spec fn is_witness_relative(self) -> bool {
        match self {
            RevealedSeal::TxOutpoint { txid: _, vout: _, blinding: _ } => false,
            RevealedSeal::WitnessVout { vout: _, blinding: _ } => true,
        }
    }

    /// The outpoint of a seal that is already absolute; meaningful only when
    /// the seal is not witness-relative.
    pub open spec fn absolute_outpoint(self) -> OutPoint {
        OutPoint { txid: self->TxOutpoint_txid, vout: self->TxOutpoint_vout }
    }

    /// The absolute outpoint this seal denotes once `witness` is known to be
    /// the id of the operation's witness transaction.
    pub open spec fn outpoint(self, witness: Txid) -> OutPoint {
        match self {
            RevealedSeal::TxOutpoint { txid, vout, blinding: _ } => OutPoint { txid, vout },
            RevealedSeal::WitnessVout { vout, blinding: _ } => OutPoint { txid: witness, vout },
        }
    }

    /// Resolve the seal against the witness transaction id.
    pub fn to_outpoint(&self, witness: Txid) -> (r: OutPoint)
        ensures
            r == self.outpoint(witness),
    {
        match *self {
            RevealedSeal::TxOutpoint { txid, vout, blinding: _ } => OutPoint { txid, vout },
            RevealedSeal::WitnessVout { vout, blinding: _ } => OutPoint { txid: witness, vout },
        }
    }

    /// Resolve a seal that must already be absolute (as required for seals
    /// declared by a genesis, which has no witness transaction): a
    /// witness-relative seal cannot be resolved and yields `None`.
    pub fn to_absolute_outpoint(&self) -> (r: Option<OutPoint>)
        ensures
            self.is_witness_relative() <==> r.is_none(),
            !self.is_witness_relative() ==> r == Some(self.absolute_outpoint()),
    {
        match *self {
            RevealedSeal::TxOutpoint { txid, vout, blinding: _ } => Some(OutPoint { txid, vout }),
            RevealedSeal::WitnessVout { vout: _, blinding: _ } => None,
        }
    }
}

} // verus!
