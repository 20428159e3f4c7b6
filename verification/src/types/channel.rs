//! Channel states, and the small records shared by requests and
//! responses.

use vstd::prelude::*;

use lightning_invoice::Bolt11Invoice;

verus! {

/// The state of a channel as its node reports it. This layer only
/// describes it; the node owns it.
#[derive(Debug, Clone, Copy, PartialEq, Eq, Structural, Hash)]
pub enum ChannelStatus {
    Active,
    Inactive,
    PendingClose,
    PendingOpen,
    Closed,
}

impl ChannelStatus {
    /// The state as clients read it on the wire.
    pub open spec fn name(self) -> Seq<char> {
        match self {
            ChannelStatus::Active => "Active"@,
            ChannelStatus::Inactive => "Inactive"@,
            ChannelStatus::PendingClose => "PendingClose"@,
            ChannelStatus::PendingOpen => "PendingOpen"@,
            ChannelStatus::Closed => "Closed"@,
        }
    }

    /// The state as text: the variant's own name.
    pub fn to_string(&self) -> (text: String)
        ensures
            text@ == self.name(),
    {
        match self {
            ChannelStatus::Active => "Active".to_owned(),
            ChannelStatus::Inactive => "Inactive".to_owned(),
            ChannelStatus::PendingClose => "PendingClose".to_owned(),
            ChannelStatus::PendingOpen => "PendingOpen".to_owned(),
            ChannelStatus::Closed => "Closed".to_owned(),
        }
    }
}

/// A payment request to pay.
#[derive(Debug)]
pub struct Bolt11 {
    pub bolt11: Bolt11Invoice,
}

impl Clone for Bolt11 {
    fn clone(&self) -> (copy: Self)
        ensures
            copy == *self,
    {
        Bolt11 { bolt11: self.bolt11.clone() }
    }
}

/// The claims of an access token: who it was issued to.
#[derive(Debug)]
pub struct TokenClaims {
    pub sub: String,
}

} // verus!
