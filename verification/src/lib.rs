//! Backend-agnostic Lightning adapter layer for a custodial e-cash mint.
//!
//! The crate unifies the invoice vocabularies of several Lightning node
//! implementations, bridges the two satoshi amount types in use, folds
//! backend failures into a small error taxonomy, and keeps the per-invoice
//! lifecycle that guards token issuance.

pub mod amount;
pub mod error;
pub mod ln;
pub mod trusted;
pub mod types;
pub mod utils;
