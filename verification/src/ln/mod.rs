//! The Lightning side of the mint: statuses, the invoice record and its
//! lifecycle, and the backend-layer errors.

pub mod decode;
pub mod error;
pub mod fee;
pub mod invoice;
pub mod lifecycle;
pub mod status;

pub use decode::{decode_hash, decode_invoice, states_overflowing_amount, MAX_WHOLE_BITCOIN};
pub use error::Error;
pub use fee::within_max_fee;
pub use invoice::{InvoiceInfo, Sha256};
pub use lifecycle::{IssueError, Lifecycle, LifecycleEvent};
pub use status::{
    cashu_crab_invoice, GreenlightInvoiceStatus, InvoiceStatus, InvoiceTokenStatus,
    MintInvoiceStatus,
};
