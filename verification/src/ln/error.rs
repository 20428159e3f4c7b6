//! Backend-layer errors: what a Lightning backend's libraries fail with,
//! folded into a few kinds.

use vstd::prelude::*;
use vstd::std_specs::convert::FromSpecImpl;
use vstd::string::to_string_from_display_ensures;

use axum::http::StatusCode;
use lightning_invoice::ParseOrSemanticError;
use std::string::FromUtf8Error;

use crate::trusted::{status_code_number, three_digits};

verus! {

/// A failure inside a Lightning backend.
#[derive(Debug)]
pub enum Error {
    /// A transport or status failure that came with a status code.
    StatusCode(StatusCode),
    /// A value could not be turned into JSON or read from it.
    SerdeError(serde_json::Error),
    /// A payment request did not parse or did not validate. Holds the
    /// parser's message.
    DecodeInvoice(String),
    /// Any other failure of a backend or of a library under it, by its
    /// message.
    Custom(String),
}

impl Error {
    /// The error as text: the status code's number, the JSON error's own
    /// text, or the message held.
    pub fn to_string(&self) -> (text: String)
        ensures
            match *self {
                Error::StatusCode(code) => text@ == three_digits(status_code_number(code)),
                Error::SerdeError(err) => to_string_from_display_ensures::<serde_json::Error>(
                    &err,
                    text,
                ),
                Error::DecodeInvoice(message) => text@ == message@,
                Error::Custom(message) => text@ == message@,
            },
    {
        match self {
            Error::StatusCode(code) => code.as_str().to_owned(),
            Error::SerdeError(err) => err.to_string(),
            Error::DecodeInvoice(message) => message.clone(),
            Error::Custom(message) => message.clone(),
        }
    }
}

impl From<StatusCode> for Error {
    fn from(code: StatusCode) -> (error: Self)
        ensures
            error == Error::StatusCode(code),
    {
        Error::StatusCode(code)
    }
}

impl FromSpecImpl<StatusCode> for Error {
    open spec fn obeys_from_spec() -> bool {
        true
    }

    open spec fn from_spec(code: StatusCode) -> Self {
        Error::StatusCode(code)
    }
}

impl From<serde_json::Error> for Error {
    fn from(err: serde_json::Error) -> (error: Self)
        ensures
            error == Error::SerdeError(err),
    {
        Error::SerdeError(err)
    }
}

impl FromSpecImpl<serde_json::Error> for Error {
    open spec fn obeys_from_spec() -> bool {
        true
    }

    open spec fn from_spec(err: serde_json::Error) -> Self {
        Error::SerdeError(err)
    }
}

/// `error` is `Custom` and holds a text that `source` displays as.
pub open spec fn is_custom_of<E: core::fmt::Display>(error: Error, source: E) -> bool {
    error matches Error::Custom(message) && to_string_from_display_ensures::<E>(&source, message)
}

impl From<cln_rpc::RpcError> for Error {
    /// Keeps the RPC error's displayed text.
    fn from(err: cln_rpc::RpcError) -> (error: Self)
        ensures
            is_custom_of(error, err),
    {
        Error::Custom(err.to_string())
    }
}

impl FromSpecImpl<cln_rpc::RpcError> for Error {
    /// The result is not a function of the argument as far as the
    /// verifier sees: what `from` returns is stated on `from` itself.
    open spec fn obeys_from_spec() -> bool {
        false
    }

    open spec fn from_spec(err: cln_rpc::RpcError) -> Self {
        arbitrary()
    }
}

impl From<anyhow::Error> for Error {
    /// Keeps the error's displayed text.
    fn from(err: anyhow::Error) -> (error: Self)
        ensures
            is_custom_of(error, err),
    {
        Error::Custom(err.to_string())
    }
}

impl FromSpecImpl<anyhow::Error> for Error {
    /// The result is not a function of the argument as far as the
    /// verifier sees: what `from` returns is stated on `from` itself.
    open spec fn obeys_from_spec() -> bool {
        false
    }

    open spec fn from_spec(err: anyhow::Error) -> Self {
        arbitrary()
    }
}

impl From<bitcoin_hashes::hex::Error> for Error {
    /// Keeps the hex error's displayed text.
    fn from(err: bitcoin_hashes::hex::Error) -> (error: Self)
        ensures
            is_custom_of(error, err),
    {
        Error::Custom(err.to_string())
    }
}

impl FromSpecImpl<bitcoin_hashes::hex::Error> for Error {
    /// The result is not a function of the argument as far as the
    /// verifier sees: what `from` returns is stated on `from` itself.
    open spec fn obeys_from_spec() -> bool {
        false
    }

    open spec fn from_spec(err: bitcoin_hashes::hex::Error) -> Self {
        arbitrary()
    }
}

impl From<ParseOrSemanticError> for Error {
    /// A payment request that failed to parse or validate is a decode
    /// failure. Keeps the parser's displayed text.
    fn from(err: ParseOrSemanticError) -> (error: Self)
        ensures
            error matches Error::DecodeInvoice(message) && to_string_from_display_ensures::<
                ParseOrSemanticError,
            >(&err, message),
    {
        Error::DecodeInvoice(err.to_string())
    }
}

impl FromSpecImpl<ParseOrSemanticError> for Error {
    /// The result is not a function of the argument as far as the
    /// verifier sees: what `from` returns is stated on `from` itself.
    open spec fn obeys_from_spec() -> bool {
        false
    }

    open spec fn from_spec(err: ParseOrSemanticError) -> Self {
        arbitrary()
    }
}

impl From<FromUtf8Error> for Error {
    /// Keeps the error's displayed text.
    fn from(err: FromUtf8Error) -> (error: Self)
        ensures
            is_custom_of(error, err),
    {
        Error::Custom(err.to_string())
    }
}

impl FromSpecImpl<FromUtf8Error> for Error {
    /// The result is not a function of the argument as far as the
    /// verifier sees: what `from` returns is stated on `from` itself.
    open spec fn obeys_from_spec() -> bool {
        false
    }

    open spec fn from_spec(err: FromUtf8Error) -> Self {
        arbitrary()
    }
}

impl From<ldk_node::NodeError> for Error {
    /// Keeps the node error's displayed text.
    fn from(err: ldk_node::NodeError) -> (error: Self)
        ensures
            is_custom_of(error, err),
    {
        Error::Custom(err.to_string())
    }
}

impl FromSpecImpl<ldk_node::NodeError> for Error {
    /// The result is not a function of the argument as far as the
    /// verifier sees: what `from` returns is stated on `from` itself.
    open spec fn obeys_from_spec() -> bool {
        false
    }

    open spec fn from_spec(err: ldk_node::NodeError) -> Self {
        arbitrary()
    }
}

} // verus!
