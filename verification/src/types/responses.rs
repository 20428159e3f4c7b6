//! What the node manager answers with.

use vstd::prelude::*;

use bitcoin::secp256k1::PublicKey;

use crate::amount::Amount;
use crate::ln::invoice::Sha256;
use crate::ln::status::MintInvoiceStatus;
use crate::types::channel::ChannelStatus;

verus! {

/// The outcome of paying an invoice.
#[derive(Debug)]
pub struct PayInvoiceResponse {
    pub payment_hash: Sha256,
    pub status: MintInvoiceStatus,
}

impl Clone for PayInvoiceResponse {
    fn clone(&self) -> (copy: Self)
        ensures
            copy == *self,
    {
        PayInvoiceResponse { payment_hash: self.payment_hash, status: self.status }
    }
}

/// A fresh on-chain address to fund the node.
#[derive(Debug, Clone)]
pub struct FundingAddressResponse {
    pub address: String,
}

/// The node's funds: on chain, and in channels.
#[derive(Debug, Clone)]
pub struct BalanceResponse {
    pub on_chain_spendable: Amount,
    pub on_chain_total: Amount,
    pub ln: Amount,
}

impl Default for BalanceResponse {
    /// No funds anywhere.
    fn default() -> (balance: Self)
        ensures
            balance.on_chain_spendable.sat == 0,
            balance.on_chain_total.sat == 0,
            balance.ln.sat == 0,
    {
        BalanceResponse {
            on_chain_spendable: Amount::from_sat(0),
            on_chain_total: Amount::from_sat(0),
            ln: Amount::from_sat(0),
        }
    }
}

/// One channel of the node.
#[derive(Debug)]
pub struct ChannelInfo {
    pub peer_pubkey: PublicKey,
    pub channel_id: String,
    pub balance: Amount,
    pub value: Amount,
    pub is_usable: bool,
    pub status: ChannelStatus,
}

impl Clone for ChannelInfo {
    fn clone(&self) -> (copy: Self)
        ensures
            copy == *self,
    {
        ChannelInfo {
            peer_pubkey: self.peer_pubkey,
            channel_id: self.channel_id.clone(),
            balance: self.balance,
            value: self.value,
            is_usable: self.is_usable,
            status: self.status,
        }
    }
}

/// One peer of the node.
#[derive(Debug, PartialEq)]
pub struct PeerInfo {
    pub peer_pubkey: PublicKey,
    pub host: String,
    pub port: u16,
    pub connected: bool,
}

impl Clone for PeerInfo {
    fn clone(&self) -> (copy: Self)
        ensures
            copy == *self,
    {
        PeerInfo {
            peer_pubkey: self.peer_pubkey,
            host: self.host.clone(),
            port: self.port,
            connected: self.connected,
        }
    }
}

/// The answer to a login: a status word and the access token.
#[derive(Debug, Clone)]
pub struct LoginResponse {
    pub status: String,
    pub token: String,
}

} // verus!
