//! Caller-facing errors: what the mint's boundary tells a client, and how
//! each kind is rendered.

use vstd::pervasive::unreached;
use vstd::prelude::*;
use vstd::std_specs::convert::FromSpecImpl;

use axum::http::StatusCode;
use lightning_invoice::ParseOrSemanticError;

use crate::ln::error::Error as BackendError;
use crate::trusted::{status_code_number, three_digits};

verus! {

/// What a caller of the mint can be told went wrong.
#[derive(Debug, Eq, PartialEq)]
pub enum Error {
    /// The invoice is still waiting for its payment. Not a failure of the
    /// invoice: the payer polls again.
    InvoiceNotPaid,
    /// The invoice ran out before it was paid. The caller needs a new one.
    InvoiceExpired,
    /// The payment request did not parse or did not validate.
    DecodeInvoice,
    /// A transport-level failure, passed on by its status code.
    StatusCode(StatusCode),
}

/// The body of a reply.
#[derive(Debug)]
pub enum ResponseBody {
    /// An error record, sent as JSON.
    Json(ErrorResponse),
    /// Plain text, possibly empty.
    Text(String),
}

/// What the boundary sends for an error: a status and a body.
#[derive(Debug)]
pub struct ResponseParts {
    pub status: StatusCode,
    pub body: ResponseBody,
}

/// An error as a client reads it: a code and a message.
#[derive(Debug)]
pub struct ErrorResponse {
    code: u16,
    error: String,
}

/// What an `ErrorResponse` holds.
pub struct ErrorResponseView {
    pub code: u16,
    pub error: Seq<char>,
}

impl View for ErrorResponse {
    type V = ErrorResponseView;

    closed spec fn view(&self) -> ErrorResponseView {
        ErrorResponseView { code: self.code, error: self.error@ }
    }
}

impl ErrorResponse {
    /// An error record with the given code and message.
    pub fn new(code: u16, error: &str) -> (response: Self)
        ensures
            response@ == (ErrorResponseView { code, error: error@ }),
    {
        Self { code, error: error.to_owned() }
    }

    /// The code.
    pub fn code(&self) -> (code: u16)
        ensures
            code == self@.code,
    {
        self.code
    }

    /// The message.
    pub fn error(&self) -> (error: &str)
        ensures
            error@ == self@.error,
    {
        self.error.as_str()
    }
}

/// The status with the number `number`.
fn status_with_number(number: u16) -> (code: StatusCode)
    requires
        100 <= number <= 999,
    ensures
        status_code_number(code) == number,
{
    match StatusCode::from_u16(number) {
        Ok(code) => code,
        Err(_) => unreached(),
    }
}

impl Error {
    /// The text that stands for this error.
    pub open spec fn message(self) -> Seq<char> {
        match self {
            Error::InvoiceNotPaid => "Lightning invoice not paid yet."@,
            Error::InvoiceExpired => "Lightning invoice expired."@,
            Error::DecodeInvoice => "Failed to decode LN Invoice"@,
            Error::StatusCode(code) => three_digits(status_code_number(code)),
        }
    }

    /// The number of the status that the boundary answers this error
    /// with: 200 for an invoice still unpaid, so that a polling client
    /// sees no hard failure; 400 for an expired or undecodable invoice;
    /// the code itself for a status code.
    pub open spec fn response_status(self) -> u16 {
        match self {
            Error::InvoiceNotPaid => 200,
            Error::InvoiceExpired => 400,
            Error::DecodeInvoice => 400,
            Error::StatusCode(code) => status_code_number(code),
        }
    }

    /// The error as text.
    pub fn to_string(&self) -> (text: String)
        ensures
            text@ == self.message(),
    {
        match self {
            Error::InvoiceNotPaid => "Lightning invoice not paid yet.".to_owned(),
            Error::InvoiceExpired => "Lightning invoice expired.".to_owned(),
            Error::DecodeInvoice => "Failed to decode LN Invoice".to_owned(),
            Error::StatusCode(code) => code.as_str().to_owned(),
        }
    }

    /// The status and body that the boundary sends for this error.
    ///
    /// An invoice still unpaid is answered with success and an error
    /// record of code zero. An expired or undecodable invoice is a client
    /// error with the message as text. A status code is passed on as it
    /// is, with an empty body.
    pub fn into_response(self) -> (parts: ResponseParts)
        ensures
            status_code_number(parts.status) == self.response_status(),
            match self {
                Error::InvoiceNotPaid => parts.body matches ResponseBody::Json(record)
                    && record@ == (ErrorResponseView { code: 0, error: self.message() }),
                Error::InvoiceExpired => parts.body matches ResponseBody::Text(text) && text@
                    == self.message(),
                Error::DecodeInvoice => parts.body matches ResponseBody::Text(text) && text@
                    == self.message(),
                Error::StatusCode(code) => parts.status == code && (parts.body
                    matches ResponseBody::Text(text) && text@ == Seq::<char>::empty()),
            },
    {
        match self {
            Error::InvoiceNotPaid => {
                let text = self.to_string();
                ResponseParts {
                    status: status_with_number(200),
                    body: ResponseBody::Json(ErrorResponse::new(0, text.as_str())),
                }
            },
            Error::DecodeInvoice => ResponseParts {
                status: status_with_number(400),
                body: ResponseBody::Text(self.to_string()),
            },
            Error::InvoiceExpired => ResponseParts {
                status: status_with_number(400),
                body: ResponseBody::Text(self.to_string()),
            },
            Error::StatusCode(code) => ResponseParts {
                status: code,
                body: ResponseBody::Text(String::new()),
            },
        }
    }
}

impl From<StatusCode> for Error {
    fn from(code: StatusCode) -> (error: Self)
        ensures
            error == Error::StatusCode(code),
    {
        Error::StatusCode(code)
    }
}

impl FromSpecImpl<StatusCode> for Error {
    open spec fn obeys_from_spec() -> bool {
        true
    }

    open spec fn from_spec(code: StatusCode) -> Self {
        Error::StatusCode(code)
    }
}

impl From<ParseOrSemanticError> for Error {
    /// Whatever made the payment request invalid, the caller learns that
    /// it could not be decoded.
    fn from(_err: ParseOrSemanticError) -> (error: Self)
        ensures
            error == Error::DecodeInvoice,
    {
        Error::DecodeInvoice
    }
}

impl FromSpecImpl<ParseOrSemanticError> for Error {
    open spec fn obeys_from_spec() -> bool {
        true
    }

    open spec fn from_spec(_err: ParseOrSemanticError) -> Self {
        Error::DecodeInvoice
    }
}

impl From<BackendError> for Error {
    /// Shows a backend failure to the caller. A status code is passed on
    /// as it is and a decode failure stays one. A serialization failure
    /// and a failure known only by its message are the server's own and
    /// surface as status 500; their text stays behind.
    fn from(err: BackendError) -> (error: Self)
        ensures
            match err {
                BackendError::StatusCode(code) => error == Error::StatusCode(code),
                BackendError::DecodeInvoice(_) => error == Error::DecodeInvoice,
                BackendError::SerdeError(_) => error matches Error::StatusCode(code)
                    && status_code_number(code) == 500,
                BackendError::Custom(_) => error matches Error::StatusCode(code)
                    && status_code_number(code) == 500,
            },
    {
        match err {
            BackendError::StatusCode(code) => Error::StatusCode(code),
            BackendError::DecodeInvoice(_) => Error::DecodeInvoice,
            BackendError::SerdeError(_) => Error::StatusCode(status_with_number(500)),
            BackendError::Custom(_) => Error::StatusCode(status_with_number(500)),
        }
    }
}

impl FromSpecImpl<BackendError> for Error {
    /// The result is not a function of the argument as far as the
    /// verifier sees: what `from` returns is stated on `from` itself.
    open spec fn obeys_from_spec() -> bool {
        false
    }

    open spec fn from_spec(err: BackendError) -> Self {
        arbitrary()
    }
}

} // verus!
