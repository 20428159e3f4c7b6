//! Types of other crates that run through this library, and the contracts
//! assumed of the few functions of theirs that the verified code calls.
//!
//! Nothing in this file is proved. Each item says what it takes on trust.

use vstd::prelude::*;

use anyhow::Error as AnyhowError;
use axum::http::status::InvalidStatusCode;
use axum::http::StatusCode as HttpStatus;
use bitcoin::secp256k1::PublicKey;
use bitcoin_hashes::hex::Error as HexError;
use bitcoin_hashes::sha256::Hash as Sha256Hash;
use lightning_invoice::{Bolt11Invoice, ParseOrSemanticError};
use serde_json::Error as JsonError;
use std::str::FromStr;

use crate::ln::decode::amount_overflows;

verus! {

/// `cln_rpc`'s invoice status. Its three variants are read as they are
/// declared there, so a `match` on it is checked for exhaustiveness.
#[verifier::external_type_specification]
pub struct ExClnInvoiceStatus(cln_rpc::model::responses::ListinvoicesInvoicesStatus);

/// `ldk_node`'s payment status, with its three variants as declared there.
#[verifier::external_type_specification]
pub struct ExLdkPaymentStatus(ldk_node::PaymentStatus);

/// `cln_rpc::RpcError`, carried as an opaque value.
#[verifier::external_type_specification]
#[verifier::external_body]
pub struct ExRpcError(cln_rpc::RpcError);

/// `ldk_node::NodeError`, carried as an opaque value.
#[verifier::external_type_specification]
#[verifier::external_body]
pub struct ExNodeError(ldk_node::NodeError);

/// `serde_json::Error`, carried as an opaque value.
#[verifier::external_type_specification]
#[verifier::external_body]
pub struct ExSerdeJsonError(JsonError);

/// `anyhow::Error`, carried as an opaque value.
#[verifier::external_type_specification]
#[verifier::external_body]
pub struct ExAnyhowError(AnyhowError);

/// `bitcoin_hashes::hex::Error`, carried as an opaque value.
#[verifier::external_type_specification]
#[verifier::external_body]
pub struct ExHexError(HexError);

/// `std::string::FromUtf8Error`, carried as an opaque value.
#[verifier::external_type_specification]
#[verifier::external_body]
pub struct ExFromUtf8Error(std::string::FromUtf8Error);

/// `lightning_invoice::ParseOrSemanticError`, carried as an opaque value.
#[verifier::external_type_specification]
#[verifier::external_body]
pub struct ExParseOrSemanticError(ParseOrSemanticError);

/// `lightning_invoice::Bolt11Invoice`, a parsed and validated payment
/// request. The library only carries it.
#[verifier::external_type_specification]
#[verifier::external_body]
pub struct ExBolt11Invoice(Bolt11Invoice);

/// `bitcoin_hashes::sha256::Hash`, a 32-byte digest.
#[verifier::external_type_specification]
#[verifier::external_body]
pub struct ExSha256Hash(Sha256Hash);

/// `secp256k1::PublicKey` as `bitcoin` re-exports it. The library only
/// carries it.
#[verifier::external_type_specification]
#[verifier::external_body]
pub struct ExPublicKey(PublicKey);

/// `http::StatusCode` as `axum` re-exports it.
#[verifier::external_type_specification]
#[verifier::external_body]
pub struct ExHttpStatus(HttpStatus);

/// The error of `StatusCode::from_u16`.
#[verifier::external_type_specification]
#[verifier::external_body]
pub struct ExInvalidStatusCode(InvalidStatusCode);

/// The number that a status code holds, which `StatusCode::as_u16`
/// returns. A `StatusCode` can only be made from a number between 100 and
/// 999.
pub uninterp spec fn status_code_number(code: HttpStatus) -> u16;

/// The ASCII digit for `d`, meant for `0 <= d <= 9`.
pub open spec fn ascii_digit(d: int) -> char {
    (48 + d) as u8 as char
}

/// The three decimal digits of a number between 100 and 999.
pub open spec fn three_digits(n: u16) -> Seq<char> {
    seq![ascii_digit(n as int / 100), ascii_digit((n as int / 10) % 10), ascii_digit(n as int % 10)]
}

/// `StatusCode::as_str` returns the code's number in decimal, always three
/// digits, without the reason phrase.
pub assume_specification<'a>[ HttpStatus::as_str ](code: &'a HttpStatus) -> (text: &'a str)
    ensures
        text@ == three_digits(status_code_number(*code)),
;

/// `StatusCode::from_u16` accepts exactly the numbers from 100 to 999 and
/// returns the code with that number.
pub assume_specification[ HttpStatus::from_u16 ](src: u16) -> (res: Result<
    HttpStatus,
    InvalidStatusCode,
>)
    ensures
        res is Ok <==> 100 <= src <= 999,
        res matches Ok(code) ==> status_code_number(code) == src,
;

/// A clone of a payment request is the same payment request.
pub assume_specification[ <Bolt11Invoice as Clone>::clone ](invoice: &Bolt11Invoice) -> (copy:
    Bolt11Invoice)
    ensures
        copy == *invoice,
;

/// What `Bolt11Invoice::from_str` makes of a text: the payment request
/// that the text encodes, or the reason why it encodes none. Parsing
/// reads the text alone: it decodes it, checks its signature and checks
/// the fields that a payment request must have. Nothing is said of it
/// for a text whose amount overflows, which the parser is never handed.
pub uninterp spec fn parsed_invoice(text: Seq<char>) -> Result<Bolt11Invoice, ParseOrSemanticError>;

/// Parses a payment request with `Bolt11Invoice::from_str`.
///
/// The parser splits the text at its last `1` and reads the amount from
/// what precedes it. Where a multiplier letter follows the number, it
/// checks that the amount fits 64 bits in picobitcoin and fails if not.
/// Where none follows, it multiplies unchecked once the request has
/// passed every other test, so a number above `MAX_WHOLE_BITCOIN` is
/// kept from it here.
#[verifier::external_body]
pub(crate) fn parse_invoice(text: &str) -> (res: Result<Bolt11Invoice, ParseOrSemanticError>)
    requires
        !amount_overflows(text@),
    ensures
        res == parsed_invoice(text@),
{
    Bolt11Invoice::from_str(text)
}

/// The time at which a payment request expires, in seconds since the
/// Unix epoch, as `Bolt11Invoice::expires_at` gives it: the request's
/// timestamp plus its expiry time, or `None` where that sum overflows.
/// Both are whole seconds in a payment request.
pub uninterp spec fn invoice_expires_at(invoice: Bolt11Invoice) -> Option<u64>;

/// Reads a payment request's time of expiry with
/// `Bolt11Invoice::expires_at`, in seconds.
#[verifier::external_body]
pub(crate) fn expires_at(invoice: &Bolt11Invoice) -> (at: Option<u64>)
    ensures
        at == invoice_expires_at(*invoice),
{
    invoice.expires_at().map(|at| at.as_secs())
}

/// What `sha256::Hash::from_str` makes of a text: the digest that the
/// text spells in hexadecimal, or the reason why it spells none.
pub uninterp spec fn parsed_hash(text: Seq<char>) -> Result<Sha256Hash, HexError>;

/// Parses a digest from hexadecimal with `sha256::Hash::from_str`.
#[verifier::external_body]
pub(crate) fn parse_hash(text: &str) -> (res: Result<Sha256Hash, HexError>)
    ensures
        res == parsed_hash(text@),
{
    Sha256Hash::from_str(text)
}

/// Whether two digests are the same, by `sha256::Hash`'s own `==`, which
/// compares the 32 bytes.
#[verifier::external_body]
pub(crate) fn same_hash(a: &Sha256Hash, b: &Sha256Hash) -> (same: bool)
    ensures
        same == (*a == *b),
{
    a == b
}

} // verus!
