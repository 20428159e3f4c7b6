//! What the node manager's operations take and give.

pub mod channel;
pub mod requests;
pub mod responses;

pub use channel::{Bolt11, ChannelStatus, TokenClaims};
