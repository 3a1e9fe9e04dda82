//! Extraction failures.

use vstd::prelude::*;
use crate::seal::NodeId;

verus! {

/// Why a record could not be extracted from an operation.
///
/// These are data-integrity failures on already-accepted operations, not
/// transient conditions: every failure aborts construction of the single
/// record and is reported synchronously to the caller.
#[derive(Clone, Copy, PartialEq, Eq, Structural, Hash, Debug)]
pub enum Error {
    /// A metadata field the schema requires is absent from the operation.
    UnsatisfiedSchemaRequirement,
    /// An inflation right of the named operation is blinded; supply
    /// accounting requires revealed seals and amounts.
    InflationAssignmentConfidential(NodeId),
    /// The open-epoch seal of the named operation is blinded.
    EpochSealConfidential(NodeId),
    /// The burn/replace seal of the named operation is blinded.
    BurnSealConfidential(NodeId),
    /// A genesis-declared seal is witness-relative and so cannot be resolved
    /// to an absolute outpoint (a genesis has no witness transaction).
    UnresolvedGenesisSeal(NodeId),
    /// A replace operation declares a replaced amount above its burned
    /// amount; a conforming operation never does, so the record is refused
    /// rather than recording a negative supply change.
    ReplacementExceedsBurn(NodeId),
}

} // verus!
