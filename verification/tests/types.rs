use std::str::FromStr;

use bitcoin::secp256k1::PublicKey;
use cashu_mint_ln::amount::Amount;
use cashu_mint_ln::ln::{MintInvoiceStatus, Sha256};
use cashu_mint_ln::types::requests::{
    CloseChannel, ConnectPeerRequest, CreateInvoiceParams, KeysendRequest, OpenChannelRequest,
    PayOnChainRequest,
};
use cashu_mint_ln::types::responses::{
    BalanceResponse, ChannelInfo, FundingAddressResponse, LoginResponse, PayInvoiceResponse,
    PeerInfo,
};
use cashu_mint_ln::types::{Bolt11, ChannelStatus, TokenClaims};

fn digest(data: &[u8]) -> Sha256 {
    <Sha256 as bitcoin_hashes::Hash>::hash(data)
}

fn peer_key() -> PublicKey {
    PublicKey::from_str("02e6642fd69bd211f93f7f1f36ca51a26a5290eb2dd1b0d8279a87bb0d480c8443").unwrap()
}

#[test]
fn balance_defaults_to_zero() {
    let balance = BalanceResponse::default();
    assert_eq!(balance.on_chain_spendable, Amount::from_sat(0));
    assert_eq!(balance.on_chain_total, Amount::from_sat(0));
    assert_eq!(balance.ln, Amount::from_sat(0));
}

#[test]
fn requests_carry_their_fields() {
    let params = CreateInvoiceParams { msat: 21_000, description: Some("tea".to_string()) };
    assert_eq!(params.clone().msat, 21_000);
    assert_eq!(params.description.as_deref(), Some("tea"));

    let keysend = KeysendRequest { amount: 5, pubkey: peer_key() };
    assert_eq!(keysend.clone().pubkey, peer_key());
    assert_eq!(keysend.amount, 5);

    let open = OpenChannelRequest {
        public_key: peer_key(),
        host: "127.0.0.1".to_string(),
        port: 9735,
        amount: Amount::from_sat(100_000),
        push_amount: None,
    };
    let copy = open.clone();
    assert_eq!(copy.public_key, peer_key());
    assert_eq!(copy.host, "127.0.0.1");
    assert_eq!(copy.port, 9735);
    assert_eq!(copy.amount, Amount::from_sat(100_000));
    assert_eq!(copy.push_amount, None);

    let connect = ConnectPeerRequest { public_key: peer_key(), host: "node".to_string(), port: 1 };
    assert_eq!(connect.clone().port, 1);

    let pay = PayOnChainRequest { sat: 546, address: "bc1qexample".to_string() };
    assert_eq!(pay.clone().sat, 546);
    assert_eq!(pay.address, "bc1qexample");

    let close = CloseChannel { channel_id: "7".to_string(), peer_id: Some(peer_key()) };
    assert_eq!(close.clone().peer_id, Some(peer_key()));
    assert_eq!(close.channel_id, "7");
}

#[test]
fn responses_carry_their_fields() {
    let paid = PayInvoiceResponse {
        payment_hash: digest(b"payment"),
        status: MintInvoiceStatus::Paid,
    };
    assert_eq!(paid.clone().payment_hash, digest(b"payment"));
    assert_eq!(paid.status, MintInvoiceStatus::Paid);

    let funding = FundingAddressResponse { address: "bc1qexample".to_string() };
    assert_eq!(funding.clone().address, "bc1qexample");

    let channel = ChannelInfo {
        peer_pubkey: peer_key(),
        channel_id: "7".to_string(),
        balance: Amount::from_sat(40_000),
        value: Amount::from_sat(100_000),
        is_usable: true,
        status: ChannelStatus::Active,
    };
    let copy = channel.clone();
    assert_eq!(copy.peer_pubkey, peer_key());
    assert_eq!(copy.balance, Amount::from_sat(40_000));
    assert_eq!(copy.value, Amount::from_sat(100_000));
    assert!(copy.is_usable);
    assert_eq!(copy.status, ChannelStatus::Active);

    let peer = PeerInfo { peer_pubkey: peer_key(), host: "node".to_string(), port: 9735, connected: true };
    assert_eq!(peer.clone(), peer);

    let login = LoginResponse { status: "OK".to_string(), token: "abc".to_string() };
    assert_eq!(login.clone().token, "abc");
    assert_eq!(login.status, "OK");
}

#[test]
fn shared_records_carry_their_fields() {
    let invoice: lightning_invoice::Bolt11Invoice = "lnbc2500u1pvjluezsp5zyg3zyg3zyg3zyg3zyg3zyg3zyg3zyg3zyg3zyg3zyg3zyg3zygspp5qqqsyqcyq5rqwzqfqqqsyqcyq5rqwzqfqqqsyqcyq5rqwzqfqypqdq5xysxxatsyp3k7enxv4jsxqzpu9qrsgquk0rl77nj30yxdy8j9vdx85fkpmdla2087ne0xh8nhedh8w27kyke0lp53ut353s06fv3qfegext0eh0ymjpf39tuven09sam30g4vgpfna3rh".parse().unwrap();
    let bolt11 = Bolt11 { bolt11: invoice.clone() };
    assert_eq!(bolt11.clone().bolt11, invoice);

    let claims = TokenClaims { sub: "operator".to_string() };
    assert_eq!(claims.sub, "operator");
}
