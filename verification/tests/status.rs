use cashu_mint_ln::ln::{
    cashu_crab_invoice, GreenlightInvoiceStatus, InvoiceStatus, InvoiceTokenStatus,
    MintInvoiceStatus,
};
use cashu_mint_ln::types::ChannelStatus;
use cln_rpc::model::responses::ListinvoicesInvoicesStatus;
use ldk_node::PaymentStatus;

#[test]
fn cln_status_maps_by_name() {
    assert_eq!(InvoiceStatus::from(ListinvoicesInvoicesStatus::UNPAID), InvoiceStatus::Unpaid);
    assert_eq!(InvoiceStatus::from(ListinvoicesInvoicesStatus::PAID), InvoiceStatus::Paid);
    assert_eq!(InvoiceStatus::from(ListinvoicesInvoicesStatus::EXPIRED), InvoiceStatus::Expired);
}

#[test]
fn greenlight_status_maps_by_name() {
    assert_eq!(InvoiceStatus::from(GreenlightInvoiceStatus::Unpaid), InvoiceStatus::Unpaid);
    assert_eq!(InvoiceStatus::from(GreenlightInvoiceStatus::Paid), InvoiceStatus::Paid);
    assert_eq!(InvoiceStatus::from(GreenlightInvoiceStatus::Expired), InvoiceStatus::Expired);
}

#[test]
fn ldk_status_maps_conservatively() {
    assert_eq!(InvoiceStatus::from(PaymentStatus::Pending), InvoiceStatus::Unpaid);
    assert_eq!(InvoiceStatus::from(PaymentStatus::Succeeded), InvoiceStatus::Paid);
    assert_eq!(InvoiceStatus::from(PaymentStatus::Failed), InvoiceStatus::Expired);
}

#[test]
fn mint_status_maps_one_to_one() {
    assert_eq!(InvoiceStatus::from(MintInvoiceStatus::Unpaid), InvoiceStatus::Unpaid);
    assert_eq!(InvoiceStatus::from(MintInvoiceStatus::Paid), InvoiceStatus::Paid);
    assert_eq!(InvoiceStatus::from(MintInvoiceStatus::Expired), InvoiceStatus::Expired);
    assert_eq!(InvoiceStatus::from(MintInvoiceStatus::InFlight), InvoiceStatus::InFlight);
}

#[test]
fn canonical_status_writes_back_to_mint_vocabulary() {
    assert_eq!(cashu_crab_invoice(InvoiceStatus::Unpaid), MintInvoiceStatus::Unpaid);
    assert_eq!(cashu_crab_invoice(InvoiceStatus::Paid), MintInvoiceStatus::Paid);
    assert_eq!(cashu_crab_invoice(InvoiceStatus::Expired), MintInvoiceStatus::Expired);
    assert_eq!(cashu_crab_invoice(InvoiceStatus::InFlight), MintInvoiceStatus::InFlight);
}

#[test]
fn mint_vocabulary_round_trips() {
    for status in [
        InvoiceStatus::Unpaid,
        InvoiceStatus::Paid,
        InvoiceStatus::Expired,
        InvoiceStatus::InFlight,
    ] {
        assert_eq!(InvoiceStatus::from(cashu_crab_invoice(status)), status);
    }
}

#[test]
fn only_settled_variants_become_paid() {
    let paid = InvoiceStatus::Paid;
    assert_ne!(InvoiceStatus::from(ListinvoicesInvoicesStatus::UNPAID), paid);
    assert_ne!(InvoiceStatus::from(ListinvoicesInvoicesStatus::EXPIRED), paid);
    assert_ne!(InvoiceStatus::from(GreenlightInvoiceStatus::Unpaid), paid);
    assert_ne!(InvoiceStatus::from(GreenlightInvoiceStatus::Expired), paid);
    assert_ne!(InvoiceStatus::from(PaymentStatus::Pending), paid);
    assert_ne!(InvoiceStatus::from(PaymentStatus::Failed), paid);
    assert_ne!(InvoiceStatus::from(MintInvoiceStatus::Unpaid), paid);
    assert_ne!(InvoiceStatus::from(MintInvoiceStatus::Expired), paid);
    assert_ne!(InvoiceStatus::from(MintInvoiceStatus::InFlight), paid);
}

#[test]
fn invoice_status_strings_are_verbatim() {
    assert_eq!(InvoiceStatus::Paid.to_string(), "Paid");
    assert_eq!(InvoiceStatus::Unpaid.to_string(), "Unpaid");
    assert_eq!(InvoiceStatus::Expired.to_string(), "Expired");
    assert_eq!(InvoiceStatus::InFlight.to_string(), "InFlight");
}

#[test]
fn channel_status_strings_are_verbatim() {
    assert_eq!(ChannelStatus::Active.to_string(), "Active");
    assert_eq!(ChannelStatus::Inactive.to_string(), "Inactive");
    assert_eq!(ChannelStatus::PendingClose.to_string(), "PendingClose");
    assert_eq!(ChannelStatus::PendingOpen.to_string(), "PendingOpen");
    assert_eq!(ChannelStatus::Closed.to_string(), "Closed");
}

#[test]
fn token_status_variants_differ() {
    assert_ne!(InvoiceTokenStatus::Issued, InvoiceTokenStatus::NotIssued);
    assert_eq!(InvoiceTokenStatus::NotIssued, InvoiceTokenStatus::NotIssued);
}
