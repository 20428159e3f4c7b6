//! The status unifier: one canonical invoice status, and the mapping of
//! each backend's vocabulary onto it.
//!
//! Every mapping is a `match` with one arm per variant and no fallback
//! arm, so a variant added to a backend's enum stops the build until it
//! is mapped.

use vstd::prelude::*;
use vstd::std_specs::convert::FromSpecImpl;

use cln_rpc::model::responses::ListinvoicesInvoicesStatus;
use ldk_node::PaymentStatus;

verus! {

/// Possible states of an invoice.
#[derive(Debug, Clone, Copy, PartialEq, Eq, Structural, Hash)]
pub enum InvoiceStatus {
    /// No payment has been seen. Every invoice starts here.
    Unpaid,
    /// The payment is settled.
    Paid,
    /// The invoice ran out before it was paid.
    Expired,
    /// A payment was attempted and is not confirmed yet.
    InFlight,
}

/// Whether a token has been issued for an invoice. Kept apart from the
/// payment status so that value is never issued twice for one payment.
#[derive(Debug, Clone, Copy, PartialEq, Eq, Structural, Hash)]
pub enum InvoiceTokenStatus {
    Issued,
    NotIssued,
}

/// The invoice status as the mint's token logic names it.
#[derive(Debug, Clone, Copy, PartialEq, Eq, Structural, Hash)]
pub enum MintInvoiceStatus {
    Unpaid,
    Paid,
    Expired,
    InFlight,
}

/// The invoice status as a hosted Greenlight node reports it.
#[derive(Debug, Clone, Copy, PartialEq, Eq, Structural, Hash)]
pub enum GreenlightInvoiceStatus {
    Unpaid,
    Paid,
    Expired,
}

/// The canonical status for a status reported over Core Lightning's RPC.
/// Core Lightning reports no attempt in progress, so nothing maps to
/// `InFlight`.
pub open spec fn unify_cln(status: ListinvoicesInvoicesStatus) -> InvoiceStatus {
    match status {
        ListinvoicesInvoicesStatus::UNPAID => InvoiceStatus::Unpaid,
        ListinvoicesInvoicesStatus::PAID => InvoiceStatus::Paid,
        ListinvoicesInvoicesStatus::EXPIRED => InvoiceStatus::Expired,
    }
}

/// The canonical status for a status reported by a Greenlight node.
/// Greenlight reports no attempt in progress, so nothing maps to
/// `InFlight`.
pub open spec fn unify_greenlight(status: GreenlightInvoiceStatus) -> InvoiceStatus {
    match status {
        GreenlightInvoiceStatus::Unpaid => InvoiceStatus::Unpaid,
        GreenlightInvoiceStatus::Paid => InvoiceStatus::Paid,
        GreenlightInvoiceStatus::Expired => InvoiceStatus::Expired,
    }
}

/// The canonical status for a payment status of an embedded LDK node.
/// LDK knows no expiry and no attempt in progress at this level: a
/// pending payment counts as unpaid, a failed one as expired.
pub open spec fn unify_ldk(status: PaymentStatus) -> InvoiceStatus {
    match status {
        PaymentStatus::Pending => InvoiceStatus::Unpaid,
        PaymentStatus::Succeeded => InvoiceStatus::Paid,
        PaymentStatus::Failed => InvoiceStatus::Expired,
    }
}

/// The canonical status for a status in the mint's vocabulary.
pub open spec fn unify_mint(status: MintInvoiceStatus) -> InvoiceStatus {
    match status {
        MintInvoiceStatus::Unpaid => InvoiceStatus::Unpaid,
        MintInvoiceStatus::Paid => InvoiceStatus::Paid,
        MintInvoiceStatus::Expired => InvoiceStatus::Expired,
        MintInvoiceStatus::InFlight => InvoiceStatus::InFlight,
    }
}

/// The status in the mint's vocabulary for a canonical status.
pub open spec fn to_mint_status(status: InvoiceStatus) -> MintInvoiceStatus {
    match status {
        InvoiceStatus::Unpaid => MintInvoiceStatus::Unpaid,
        InvoiceStatus::Paid => MintInvoiceStatus::Paid,
        InvoiceStatus::Expired => MintInvoiceStatus::Expired,
        InvoiceStatus::InFlight => MintInvoiceStatus::InFlight,
    }
}

impl From<ListinvoicesInvoicesStatus> for InvoiceStatus {
    fn from(status: ListinvoicesInvoicesStatus) -> (unified: Self)
        ensures
            unified == unify_cln(status),
    {
        match status {
            ListinvoicesInvoicesStatus::UNPAID => InvoiceStatus::Unpaid,
            ListinvoicesInvoicesStatus::PAID => InvoiceStatus::Paid,
            ListinvoicesInvoicesStatus::EXPIRED => InvoiceStatus::Expired,
        }
    }
}

impl FromSpecImpl<ListinvoicesInvoicesStatus> for InvoiceStatus {
    open spec fn obeys_from_spec() -> bool {
        true
    }

    open spec fn from_spec(status: ListinvoicesInvoicesStatus) -> Self {
        unify_cln(status)
    }
}

impl From<GreenlightInvoiceStatus> for InvoiceStatus {
    fn from(status: GreenlightInvoiceStatus) -> (unified: Self)
        ensures
            unified == unify_greenlight(status),
    {
        match status {
            GreenlightInvoiceStatus::Unpaid => InvoiceStatus::Unpaid,
            GreenlightInvoiceStatus::Paid => InvoiceStatus::Paid,
            GreenlightInvoiceStatus::Expired => InvoiceStatus::Expired,
        }
    }
}

impl FromSpecImpl<GreenlightInvoiceStatus> for InvoiceStatus {
    open spec fn obeys_from_spec() -> bool {
        true
    }

    open spec fn from_spec(status: GreenlightInvoiceStatus) -> Self {
        unify_greenlight(status)
    }
}

impl From<PaymentStatus> for InvoiceStatus {
    fn from(status: PaymentStatus) -> (unified: Self)
        ensures
            unified == unify_ldk(status),
    {
        match status {
            PaymentStatus::Pending => InvoiceStatus::Unpaid,
            PaymentStatus::Succeeded => InvoiceStatus::Paid,
            PaymentStatus::Failed => InvoiceStatus::Expired,
        }
    }
}

impl FromSpecImpl<PaymentStatus> for InvoiceStatus {
    open spec fn obeys_from_spec() -> bool {
        true
    }

    open spec fn from_spec(status: PaymentStatus) -> Self {
        unify_ldk(status)
    }
}

impl From<MintInvoiceStatus> for InvoiceStatus {
    fn from(status: MintInvoiceStatus) -> (unified: Self)
        ensures
            unified == unify_mint(status),
    {
        match status {
            MintInvoiceStatus::Unpaid => InvoiceStatus::Unpaid,
            MintInvoiceStatus::Paid => InvoiceStatus::Paid,
            MintInvoiceStatus::Expired => InvoiceStatus::Expired,
            MintInvoiceStatus::InFlight => InvoiceStatus::InFlight,
        }
    }
}

impl FromSpecImpl<MintInvoiceStatus> for InvoiceStatus {
    open spec fn obeys_from_spec() -> bool {
        true
    }

    open spec fn from_spec(status: MintInvoiceStatus) -> Self {
        unify_mint(status)
    }
}

/// Writes a canonical status back in the mint's vocabulary.
pub fn cashu_crab_invoice(invoice: InvoiceStatus) -> (status: MintInvoiceStatus)
    ensures
        status == to_mint_status(invoice),
{
    match invoice {
        InvoiceStatus::Unpaid => MintInvoiceStatus::Unpaid,
        InvoiceStatus::Paid => MintInvoiceStatus::Paid,
        InvoiceStatus::Expired => MintInvoiceStatus::Expired,
        InvoiceStatus::InFlight => MintInvoiceStatus::InFlight,
    }
}

impl InvoiceStatus {
    /// The status as clients read it on the wire.
    pub open spec fn name(self) -> Seq<char> {
        match self {
            InvoiceStatus::Paid => "Paid"@,
            InvoiceStatus::Unpaid => "Unpaid"@,
            InvoiceStatus::Expired => "Expired"@,
            InvoiceStatus::InFlight => "InFlight"@,
        }
    }

    /// The status as text: exactly one of `Paid`, `Unpaid`, `Expired`,
    /// `InFlight`.
    pub fn to_string(&self) -> (text: String)
        ensures
            text@ == self.name(),
    {
        match self {
            InvoiceStatus::Paid => "Paid".to_owned(),
            InvoiceStatus::Unpaid => "Unpaid".to_owned(),
            InvoiceStatus::Expired => "Expired".to_owned(),
            InvoiceStatus::InFlight => "InFlight".to_owned(),
        }
    }
}

/// A Core Lightning status becomes `Paid` only where the node reported
/// the invoice as paid.
pub proof fn lemma_cln_paid_only_if_settled(status: ListinvoicesInvoicesStatus)
    ensures
        unify_cln(status) == InvoiceStatus::Paid <==> status == ListinvoicesInvoicesStatus::PAID,
        unify_cln(status) != InvoiceStatus::InFlight,
{
}

/// A Greenlight status becomes `Paid` only where the node reported the
/// invoice as paid.
pub proof fn lemma_greenlight_paid_only_if_settled(status: GreenlightInvoiceStatus)
    ensures
        unify_greenlight(status) == InvoiceStatus::Paid <==> status
            == GreenlightInvoiceStatus::Paid,
        unify_greenlight(status) != InvoiceStatus::InFlight,
{
}

/// An LDK payment status becomes `Paid` only where the payment succeeded;
/// a pending payment is never taken for a settled one.
pub proof fn lemma_ldk_paid_only_if_settled(status: PaymentStatus)
    ensures
        unify_ldk(status) == InvoiceStatus::Paid <==> status == PaymentStatus::Succeeded,
        status == PaymentStatus::Pending ==> unify_ldk(status) == InvoiceStatus::Unpaid,
        unify_ldk(status) != InvoiceStatus::InFlight,
{
}

/// A status of the mint's vocabulary becomes `Paid` only where it was
/// `Paid`.
pub proof fn lemma_mint_paid_only_if_settled(status: MintInvoiceStatus)
    ensures
        unify_mint(status) == InvoiceStatus::Paid <==> status == MintInvoiceStatus::Paid,
{
}

/// The mint's vocabulary and the canonical one map onto each other
/// without loss, in both directions.
pub proof fn lemma_mint_status_round_trip(canonical: InvoiceStatus, native: MintInvoiceStatus)
    ensures
        unify_mint(to_mint_status(canonical)) == canonical,
        to_mint_status(unify_mint(native)) == native,
{
}

} // verus!
