use axum::http::StatusCode;
use cashu_mint_ln::error::{Error, ErrorResponse, ResponseBody};
use cashu_mint_ln::ln::Error as LnError;
use lightning_invoice::{Bolt11Invoice, ParseOrSemanticError};

fn parse_failure() -> ParseOrSemanticError {
    "not an invoice".parse::<Bolt11Invoice>().unwrap_err()
}

fn json_failure() -> serde_json::Error {
    serde_json::from_str::<u8>("not json").unwrap_err()
}

#[test]
fn caller_error_messages() {
    assert_eq!(Error::InvoiceNotPaid.to_string(), "Lightning invoice not paid yet.");
    assert_eq!(Error::InvoiceExpired.to_string(), "Lightning invoice expired.");
    assert_eq!(Error::DecodeInvoice.to_string(), "Failed to decode LN Invoice");
    assert_eq!(Error::StatusCode(StatusCode::NOT_FOUND).to_string(), "404");
    assert_eq!(Error::StatusCode(StatusCode::CONTINUE).to_string(), "100");
    assert_eq!(Error::StatusCode(StatusCode::from_u16(999).unwrap()).to_string(), "999");
}

#[test]
fn caller_error_from_status_code() {
    assert_eq!(
        Error::from(StatusCode::BAD_GATEWAY),
        Error::StatusCode(StatusCode::BAD_GATEWAY)
    );
}

#[test]
fn caller_error_from_parse_failure() {
    assert_eq!(Error::from(parse_failure()), Error::DecodeInvoice);
}

#[test]
fn error_response_holds_code_and_message() {
    let response = ErrorResponse::new(7, "went wrong");
    assert_eq!(response.code(), 7);
    assert_eq!(response.error(), "went wrong");
    let empty = ErrorResponse::new(0, "");
    assert_eq!(empty.code(), 0);
    assert_eq!(empty.error(), "");
}

#[test]
fn unpaid_invoice_is_answered_with_success_and_code_zero() {
    let parts = Error::InvoiceNotPaid.into_response();
    assert_eq!(parts.status, StatusCode::OK);
    match parts.body {
        ResponseBody::Json(record) => {
            assert_eq!(record.code(), 0);
            assert_eq!(record.error(), "Lightning invoice not paid yet.");
        }
        ResponseBody::Text(text) => panic!("expected an error record, got text {:?}", text),
    }
}

#[test]
fn expired_and_undecodable_invoices_are_client_errors() {
    let parts = Error::InvoiceExpired.into_response();
    assert_eq!(parts.status, StatusCode::BAD_REQUEST);
    assert!(matches!(parts.body, ResponseBody::Text(ref text) if text == "Lightning invoice expired."));

    let parts = Error::DecodeInvoice.into_response();
    assert_eq!(parts.status, StatusCode::BAD_REQUEST);
    assert!(matches!(parts.body, ResponseBody::Text(ref text) if text == "Failed to decode LN Invoice"));
}

#[test]
fn status_code_is_passed_through_with_empty_body() {
    let parts = Error::StatusCode(StatusCode::SERVICE_UNAVAILABLE).into_response();
    assert_eq!(parts.status, StatusCode::SERVICE_UNAVAILABLE);
    assert!(matches!(parts.body, ResponseBody::Text(ref text) if text.is_empty()));
}

#[test]
fn backend_error_messages() {
    assert_eq!(LnError::StatusCode(StatusCode::INTERNAL_SERVER_ERROR).to_string(), "500");
    assert_eq!(LnError::Custom("no route".to_string()).to_string(), "no route");
    assert_eq!(LnError::DecodeInvoice("bad checksum".to_string()).to_string(), "bad checksum");
    let expected = json_failure().to_string();
    assert_eq!(LnError::SerdeError(json_failure()).to_string(), expected);
}

#[test]
fn backend_error_from_status_code() {
    assert!(matches!(
        LnError::from(StatusCode::UNAUTHORIZED),
        LnError::StatusCode(code) if code == StatusCode::UNAUTHORIZED
    ));
}

#[test]
fn backend_error_from_json_failure() {
    let expected = json_failure().to_string();
    assert!(matches!(
        LnError::from(json_failure()),
        LnError::SerdeError(err) if err.to_string() == expected
    ));
}

#[test]
fn backend_error_from_rpc_error_keeps_its_text() {
    let with_code = cln_rpc::RpcError { code: Some(205), message: "no path".to_string(), data: None };
    assert!(matches!(
        LnError::from(with_code),
        LnError::Custom(message) if message == "Error code 205: no path"
    ));
    let without_code = cln_rpc::RpcError { code: None, message: "gone".to_string(), data: None };
    assert!(matches!(
        LnError::from(without_code),
        LnError::Custom(message) if message == "Error: gone"
    ));
}

#[test]
fn backend_error_from_anyhow_keeps_its_text() {
    assert!(matches!(
        LnError::from(anyhow::Error::msg("socket closed")),
        LnError::Custom(message) if message == "socket closed"
    ));
}

#[test]
fn backend_error_from_hex_error_keeps_its_text() {
    assert!(matches!(
        LnError::from(bitcoin_hashes::hex::Error::OddLengthString(3)),
        LnError::Custom(message) if message == "odd hex string length 3"
    ));
}

#[test]
fn backend_error_from_parse_failure_is_a_decode_failure() {
    let expected = parse_failure().to_string();
    assert!(matches!(
        LnError::from(parse_failure()),
        LnError::DecodeInvoice(message) if message == expected
    ));
}

#[test]
fn backend_error_from_utf8_error_keeps_its_text() {
    let err = String::from_utf8(vec![0xff, 0xfe]).unwrap_err();
    let expected = err.to_string();
    assert!(matches!(LnError::from(err), LnError::Custom(message) if message == expected));
}

#[test]
fn backend_error_from_node_error_keeps_its_text() {
    assert!(matches!(
        LnError::from(ldk_node::NodeError::NotRunning),
        LnError::Custom(message) if message == "Node is not running."
    ));
}

#[test]
fn backend_status_code_surfaces_unchanged() {
    assert_eq!(
        Error::from(LnError::StatusCode(StatusCode::GATEWAY_TIMEOUT)),
        Error::StatusCode(StatusCode::GATEWAY_TIMEOUT)
    );
}

#[test]
fn backend_decode_failure_surfaces_as_decode_failure() {
    assert_eq!(Error::from(LnError::from(parse_failure())), Error::DecodeInvoice);
}

#[test]
fn other_backend_failures_surface_as_server_errors() {
    assert_eq!(
        Error::from(LnError::Custom("no route".to_string())),
        Error::StatusCode(StatusCode::INTERNAL_SERVER_ERROR)
    );
    assert_eq!(
        Error::from(LnError::SerdeError(json_failure())),
        Error::StatusCode(StatusCode::INTERNAL_SERVER_ERROR)
    );
}
