//! What a caller hands to the node manager.

use vstd::prelude::*;

use bitcoin::secp256k1::PublicKey;

use crate::amount::Amount;

verus! {

/// Asks for an invoice over `msat` millisatoshis.
#[derive(Debug, Clone)]
pub struct CreateInvoiceParams {
    pub msat: u64,
    pub description: Option<String>,
}

/// Asks for a spontaneous payment of `amount` satoshis to a node.
#[derive(Debug)]
pub struct KeysendRequest {
    pub amount: u64,
    pub pubkey: PublicKey,
}

impl Clone for KeysendRequest {
    fn clone(&self) -> (copy: Self)
        ensures
            copy == *self,
    {
        KeysendRequest { amount: self.amount, pubkey: self.pubkey }
    }
}

/// Asks for a channel to the peer at `host` and `port`, funded with
/// `amount`, of which `push_amount` goes to the peer's side.
#[derive(Debug)]
pub struct OpenChannelRequest {
    pub public_key: PublicKey,
    pub host: String,
    pub port: u16,
    pub amount: Amount,
    pub push_amount: Option<Amount>,
}

impl Clone for OpenChannelRequest {
    fn clone(&self) -> (copy: Self)
        ensures
            copy == *self,
    {
        OpenChannelRequest {
            public_key: self.public_key,
            host: self.host.clone(),
            port: self.port,
            amount: self.amount,
            push_amount: self.push_amount,
        }
    }
}

/// Asks for a connection to the peer at `host` and `port`.
#[derive(Debug)]
pub struct ConnectPeerRequest {
    pub public_key: PublicKey,
    pub host: String,
    pub port: u16,
}

impl Clone for ConnectPeerRequest {
    fn clone(&self) -> (copy: Self)
        ensures
            copy == *self,
    {
        ConnectPeerRequest {
            public_key: self.public_key,
            host: self.host.clone(),
            port: self.port,
        }
    }
}

/// Asks for `sat` satoshis to be paid to an on-chain address.
#[derive(Debug, Clone)]
pub struct PayOnChainRequest {
    pub sat: u64,
    pub address: String,
}

/// Asks for a channel to be closed, optionally naming the peer.
#[derive(Debug)]
pub struct CloseChannel {
    pub channel_id: String,
    pub peer_id: Option<PublicKey>,
}

impl Clone for CloseChannel {
    fn clone(&self) -> (copy: Self)
        ensures
            copy == *self,
    {
        CloseChannel { channel_id: self.channel_id.clone(), peer_id: self.peer_id }
    }
}

} // verus!
