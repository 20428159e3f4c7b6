//! The invoice record, and the two operations that move it along its
//! lifecycle: taking in a reported status, and issuing its token.

use vstd::prelude::*;

use lightning_invoice::Bolt11Invoice;

use crate::amount::Amount;
use crate::error::Error as CallerError;
use crate::ln::lifecycle::{
    can_move, issue_outcome, step, IssueError, Lifecycle, LifecycleEvent,
};
use crate::ln::status::{InvoiceStatus, InvoiceTokenStatus};
use crate::trusted::{expires_at, invoice_expires_at, same_hash};

verus! {

/// A SHA-256 digest, as payment hashes and lookup keys are.
pub type Sha256 = bitcoin_hashes::sha256::Hash;

/// Invoice information.
#[derive(Debug)]
pub struct InvoiceInfo {
    /// Payment hash of the Lightning invoice, by which the network knows it.
    pub payment_hash: Sha256,
    /// Random hash generated by the mint to look the invoice up
    /// internally.
    pub hash: Sha256,
    /// The payment request handed to the payer.
    pub invoice: Bolt11Invoice,
    pub amount: Amount,
    pub status: InvoiceStatus,
    pub token_status: InvoiceTokenStatus,
    pub memo: String,
    /// When the payment was seen settled.
    pub confirmed_at: Option<u64>,
}

impl Clone for InvoiceInfo {
    fn clone(&self) -> (copy: Self)
        ensures
            copy == *self,
    {
        InvoiceInfo {
            payment_hash: self.payment_hash,
            hash: self.hash,
            invoice: self.invoice.clone(),
            amount: self.amount,
            status: self.status,
            token_status: self.token_status,
            memo: self.memo.clone(),
            confirmed_at: self.confirmed_at,
        }
    }
}

impl InvoiceInfo {
    /// The invoice's place in its lifecycle.
    pub open spec fn lifecycle(&self) -> Lifecycle {
        Lifecycle { status: self.status, token_status: self.token_status }
    }

    /// A token counts as issued only for an invoice that is paid.
    pub open spec fn wf(&self) -> bool {
        self.lifecycle().wf()
    }

    /// Whether the payment request has run out at time `now`, in seconds
    /// since the Unix epoch: its time of expiry lies before `now`.
    pub open spec fn is_past_expiry(&self, now: u64) -> bool {
        invoice_expires_at(self.invoice) matches Some(at) && at < now
    }

    /// The record of an invoice for which no token has been issued.
    pub fn new(
        payment_hash: Sha256,
        hash: Sha256,
        invoice: Bolt11Invoice,
        amount: Amount,
        status: InvoiceStatus,
        memo: &str,
        confirmed_at: Option<u64>,
    ) -> (info: Self)
        ensures
            info.payment_hash == payment_hash,
            info.hash == hash,
            info.invoice == invoice,
            info.amount == amount,
            info.status == status,
            info.token_status == InvoiceTokenStatus::NotIssued,
            info.memo@ == memo@,
            info.confirmed_at == confirmed_at,
            info.wf(),
    {
        Self {
            payment_hash,
            hash,
            invoice,
            amount,
            status,
            token_status: InvoiceTokenStatus::NotIssued,
            memo: memo.to_owned(),
            confirmed_at,
        }
    }

    /// Whether this is the invoice that the network knows by
    /// `payment_hash`.
    pub fn has_payment_hash(&self, payment_hash: &Sha256) -> (same: bool)
        ensures
            same == (self.payment_hash == *payment_hash),
    {
        same_hash(&self.payment_hash, payment_hash)
    }

    /// Whether this is the invoice that the mint looks up by `hash`.
    pub fn has_hash(&self, hash: &Sha256) -> (same: bool)
        ensures
            same == (self.hash == *hash),
    {
        same_hash(&self.hash, hash)
    }

    /// What a caller who asks after this invoice's payment is told.
    pub open spec fn payment_answer(&self) -> Result<(), CallerError> {
        match self.status {
            InvoiceStatus::Paid => Ok(()),
            InvoiceStatus::Expired => Err(CallerError::InvoiceExpired),
            InvoiceStatus::Unpaid => Err(CallerError::InvoiceNotPaid),
            InvoiceStatus::InFlight => Err(CallerError::InvoiceNotPaid),
        }
    }

    /// Answers a caller who asks whether the invoice is paid. Only a paid
    /// invoice passes. One that is unpaid or in flight is not paid yet,
    /// and the caller may ask again. One that expired will never pass.
    pub fn check_paid(&self) -> (answer: Result<(), CallerError>)
        ensures
            answer == self.payment_answer(),
    {
        match self.status {
            InvoiceStatus::Paid => Ok(()),
            InvoiceStatus::Expired => Err(CallerError::InvoiceExpired),
            InvoiceStatus::Unpaid => Err(CallerError::InvoiceNotPaid),
            InvoiceStatus::InFlight => Err(CallerError::InvoiceNotPaid),
        }
    }

    /// Takes in a status that a backend reported at time `now`, whether
    /// it came by notification or by poll.
    ///
    /// The status moves only along the lifecycle: a report that would
    /// take a paid or expired invoice anywhere else, or an invoice in
    /// flight anywhere but to paid, changes nothing. On the move to paid
    /// the settlement time is recorded. Reports may repeat: the second
    /// observer of a settlement finds it recorded and gets `false`.
    pub fn observe(&mut self, observed: InvoiceStatus, now: u64) -> (changed: bool)
        ensures
            final(self).lifecycle() == step(
                old(self).lifecycle(),
                LifecycleEvent::Observed(observed),
            ),
            changed == can_move(old(self).status, observed),
            changed == (final(self).status != old(self).status),
            final(self).confirmed_at == if changed && observed == InvoiceStatus::Paid {
                Some(now)
            } else {
                old(self).confirmed_at
            },
            *final(self) == (InvoiceInfo {
                status: final(self).status,
                confirmed_at: final(self).confirmed_at,
                ..*old(self)
            }),
            old(self).wf() ==> final(self).wf(),
    {
        let permitted = match (self.status, observed) {
            (InvoiceStatus::Unpaid, InvoiceStatus::InFlight) => true,
            (InvoiceStatus::Unpaid, InvoiceStatus::Paid) => true,
            (InvoiceStatus::Unpaid, InvoiceStatus::Expired) => true,
            (InvoiceStatus::InFlight, InvoiceStatus::Paid) => true,
            _ => false,
        };
        if permitted {
            self.status = observed;
            if observed == InvoiceStatus::Paid {
                self.confirmed_at = Some(now);
            }
        }
        permitted
    }

    /// Takes in a status reported at time `now` for the payment hash
    /// `payment_hash`. A report for another invoice changes nothing.
    pub fn observe_payment(
        &mut self,
        payment_hash: &Sha256,
        observed: InvoiceStatus,
        now: u64,
    ) -> (changed: bool)
        ensures
            old(self).payment_hash != *payment_hash ==> !changed && *final(self) == *old(self),
            old(self).payment_hash == *payment_hash ==> {
                &&& final(self).lifecycle() == step(
                    old(self).lifecycle(),
                    LifecycleEvent::Observed(observed),
                )
                &&& changed == can_move(old(self).status, observed)
                &&& final(self).confirmed_at == if changed && observed == InvoiceStatus::Paid {
                    Some(now)
                } else {
                    old(self).confirmed_at
                }
                &&& *final(self) == (InvoiceInfo {
                    status: final(self).status,
                    confirmed_at: final(self).confirmed_at,
                    ..*old(self)
                })
            },
            old(self).wf() ==> final(self).wf(),
    {
        if self.has_payment_hash(payment_hash) {
            self.observe(observed, now)
        } else {
            false
        }
    }

    /// Lets an unpaid invoice expire once its payment request has run out
    /// at time `now`. An invoice in any other status is left alone, and so
    /// is one whose payment request still runs.
    pub fn expire_if_due(&mut self, now: u64) -> (expired: bool)
        ensures
            expired == (old(self).status == InvoiceStatus::Unpaid && old(self).is_past_expiry(
                now,
            )),
            expired ==> *final(self) == (InvoiceInfo {
                status: InvoiceStatus::Expired,
                ..*old(self)
            }),
            !expired ==> *final(self) == *old(self),
            expired ==> final(self).lifecycle() == step(
                old(self).lifecycle(),
                LifecycleEvent::Observed(InvoiceStatus::Expired),
            ),
            old(self).wf() ==> final(self).wf(),
    {
        if self.status != InvoiceStatus::Unpaid {
            return false;
        }
        match expires_at(&self.invoice) {
            Some(at) => {
                if at < now {
                    self.status = InvoiceStatus::Expired;
                    true
                } else {
                    false
                }
            },
            None => false,
        }
    }

    /// Marks the token as issued, if the invoice is paid and none was
    /// issued before: the check and the mark are one step.
    ///
    /// A request against an invoice whose token was issued is refused and
    /// leaves the record as it was, as is one against an invoice that is
    /// not paid.
    pub fn issue_token(&mut self) -> (outcome: Result<(), IssueError>)
        ensures
            outcome == issue_outcome(old(self).lifecycle()),
            final(self).lifecycle() == step(old(self).lifecycle(), LifecycleEvent::IssueRequested),
            outcome is Ok ==> *final(self) == (InvoiceInfo {
                token_status: InvoiceTokenStatus::Issued,
                ..*old(self)
            }),
            outcome is Err ==> *final(self) == *old(self),
            old(self).wf() ==> final(self).wf(),
    {
        if self.token_status == InvoiceTokenStatus::Issued {
            return Err(IssueError::AlreadyIssued);
        }
        match self.status {
            InvoiceStatus::Paid => {
                self.token_status = InvoiceTokenStatus::Issued;
                Ok(())
            },
            InvoiceStatus::Expired => Err(IssueError::Expired),
            InvoiceStatus::Unpaid => Err(IssueError::NotPaid),
            InvoiceStatus::InFlight => Err(IssueError::NotPaid),
        }
    }
}

} // verus!
