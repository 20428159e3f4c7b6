//! Reading payment requests and hashes from their text form.
//!
//! A payment request states its amount in the part before its last `1`:
//! a number of bitcoin, followed by a multiplier letter where the amount
//! is a fraction. A number without a multiplier counts whole bitcoin, and
//! above `MAX_WHOLE_BITCOIN` such an amount no longer fits 64 bits in the
//! unit that requests are reckoned in. The parser is not to be handed such
//! a text, so it is told apart here first and refused as undecodable.

use vstd::prelude::*;
use vstd::string::to_string_from_display_ensures;

use lightning_invoice::{Bolt11Invoice, ParseOrSemanticError};

use crate::ln::error::{is_custom_of, Error};
use crate::ln::invoice::Sha256;
use crate::trusted::{parse_hash, parse_invoice, parsed_hash, parsed_invoice};

verus! {

/// The largest number of whole bitcoin that a payment request may state
/// without a multiplier.
pub const MAX_WHOLE_BITCOIN: u64 = 18_446_744;

/// Picobitcoin in one bitcoin. Amounts of payment requests are reckoned
/// in picobitcoin, in 64 bits.
pub const PICO_PER_BITCOIN: u64 = 1_000_000_000_000;

/// Whether `c` is one of the digits `0` to `9`.
pub open spec fn is_decimal_digit(c: char) -> bool {
    48 <= c as u32 <= 57
}

/// The value of the digit `c`.
pub open spec fn digit_value(c: char) -> nat {
    (c as u32 - 48) as nat
}

/// The number that the digits at the end of `text` spell, leading zeros
/// allowed; zero where `text` does not end in a digit.
pub open spec fn trailing_number(text: Seq<char>) -> nat
    decreases text.len(),
{
    if text.len() == 0 || !is_decimal_digit(text.last()) {
        0
    } else {
        trailing_number(text.drop_last()) * 10 + digit_value(text.last())
    }
}

/// The number of whole bitcoin that `text` states without a multiplier:
/// the number at the end of what precedes the last `1` of `text`. Zero
/// where `text` holds no `1`, and where a multiplier letter or anything
/// else but a digit stands before the last `1`.
pub open spec fn whole_bitcoin(text: Seq<char>) -> nat
    decreases text.len(),
{
    if text.len() == 0 {
        0
    } else if text.last() == '1' {
        trailing_number(text.drop_last())
    } else {
        whole_bitcoin(text.drop_last())
    }
}

/// Whether `text` states, without a multiplier, an amount that does not
/// fit 64 bits in picobitcoin.
pub open spec fn amount_overflows(text: Seq<char>) -> bool {
    whole_bitcoin(text) > MAX_WHOLE_BITCOIN
}

/// The text of the decode failure for a payment request whose amount
/// overflows.
pub open spec fn overflow_message() -> Seq<char> {
    "amount of whole bitcoin too large"@
}

/// The limit is exact: `MAX_WHOLE_BITCOIN` bitcoin fit 64 bits in
/// picobitcoin, and one bitcoin more does not.
pub proof fn lemma_limit_is_exact()
    ensures
        MAX_WHOLE_BITCOIN * PICO_PER_BITCOIN <= u64::MAX,
        (MAX_WHOLE_BITCOIN + 1) * PICO_PER_BITCOIN > u64::MAX,
{
}

/// Where the last `1` of `text` stands at `separator`, the whole bitcoin
/// it states are the number at the end of what precedes that place.
pub proof fn lemma_whole_bitcoin_at_separator(text: Seq<char>, separator: int)
    requires
        0 <= separator < text.len(),
        text[separator] == '1',
        forall|later: int| separator < later < text.len() ==> text[later] != '1',
    ensures
        whole_bitcoin(text) == trailing_number(text.take(separator)),
    decreases text.len(),
{
    if separator == text.len() - 1 {
        assert(text.drop_last() =~= text.take(separator));
    } else {
        lemma_whole_bitcoin_at_separator(text.drop_last(), separator);
        assert(text.drop_last().take(separator) =~= text.take(separator));
    }
}

/// A text without a `1` states no amount.
pub proof fn lemma_whole_bitcoin_without_separator(text: Seq<char>)
    requires
        forall|at: int| 0 <= at < text.len() ==> text[at] != '1',
    ensures
        whole_bitcoin(text) == 0,
    decreases text.len(),
{
    if text.len() > 0 {
        lemma_whole_bitcoin_without_separator(text.drop_last());
    }
}

/// `count`, or `limit` where `count` is larger.
pub open spec fn capped(count: nat, limit: nat) -> nat {
    if count > limit {
        limit
    } else {
        count
    }
}

/// Tells whether a payment request states, without a multiplier, an
/// amount that does not fit 64 bits in picobitcoin. Reads the text once,
/// front to back.
pub fn states_overflowing_amount(encoded: &str) -> (overflows: bool)
    ensures
        overflows == amount_overflows(encoded@),
{
    let limit: u64 = MAX_WHOLE_BITCOIN + 1;
    let mut number: u64 = 0;
    let mut amount: u64 = 0;
    for c in chars: encoded.chars()
        invariant
            limit == MAX_WHOLE_BITCOIN + 1,
            chars.seq() == encoded@,
            number == capped(trailing_number(encoded@.take(chars.index())), limit as nat),
            amount == capped(whole_bitcoin(encoded@.take(chars.index())), limit as nat),
    {
        proof {
            let seen = encoded@.take(chars.index() + 1);
            assert(seen.drop_last() =~= encoded@.take(chars.index()));
            assert(seen.last() == c);
        }
        if c == '1' {
            amount = number;
        }
        let code: u32 = c as u32;
        if 48 <= code && code <= 57 {
            if number < limit {
                let longer: u64 = number * 10 + (code - 48) as u64;
                number = if longer > limit {
                    limit
                } else {
                    longer
                };
            }
        } else {
            number = 0;
        }
    }
    proof {
        assert(encoded@.take(encoded@.len() as int) =~= encoded@);
    }
    amount > MAX_WHOLE_BITCOIN
}

/// Decodes a payment request.
///
/// A text whose amount overflows is refused unread, as a decode failure
/// that says so. Any other text is parsed: one that does not parse, or
/// that parses to a request that does not validate, is a decode failure
/// that holds the parser's message.
pub fn decode_invoice(encoded: &str) -> (decoded: Result<Bolt11Invoice, Error>)
    ensures
        amount_overflows(encoded@) ==> (decoded matches Err(Error::DecodeInvoice(message))
            && message@ == overflow_message()),
        !amount_overflows(encoded@) ==> match parsed_invoice(encoded@) {
            Ok(invoice) => decoded == Ok::<Bolt11Invoice, Error>(invoice),
            Err(err) => decoded matches Err(Error::DecodeInvoice(message))
                && to_string_from_display_ensures::<ParseOrSemanticError>(&err, message),
        },
{
    if states_overflowing_amount(encoded) {
        return Err(Error::DecodeInvoice("amount of whole bitcoin too large".to_owned()));
    }
    match parse_invoice(encoded) {
        Ok(invoice) => Ok(invoice),
        Err(err) => Err(Error::from(err)),
    }
}

/// Reads a hash from hexadecimal. A text that is no hash fails with the
/// hex parser's message.
pub fn decode_hash(encoded: &str) -> (decoded: Result<Sha256, Error>)
    ensures
        match parsed_hash(encoded@) {
            Ok(hash) => decoded == Ok::<Sha256, Error>(hash),
            Err(err) => decoded matches Err(error) && is_custom_of(error, err),
        },
{
    match parse_hash(encoded) {
        Ok(hash) => Ok(hash),
        Err(err) => Err(Error::from(err)),
    }
}

} // verus!
