//! Supply accounting for a fungible asset issued over a UTXO-anchored,
//! client-side-validated contract.
//!
//! Given already-validated contract operations (a genesis and zero or more
//! state transitions), this library derives issuance, inflation-right
//! delegation and burn/replace history, and folds that history into a
//! [`supply::Supply`] snapshot that distinguishes known circulating supply
//! from the (possibly unknown) total, plus the absolute issue limit.

pub mod burn;
pub mod epoch;
pub mod error;
pub mod inflation;
pub mod issue;
pub mod operation;
pub mod seal;
pub mod supply;

pub use burn::BurnReplace;
pub use epoch::Epoch;
pub use error::Error;
pub use inflation::InflationAssignment;
pub use issue::Issue;
pub use supply::Supply;
pub use supply::SupplyMeasure;
