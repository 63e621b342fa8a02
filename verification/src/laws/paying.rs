//! When tokens are issued and invoices settled, and what that changes.

use crate::history::{
    invoice_step, invoice_verdict, token_effects, token_step, token_verdict, InvoiceCall, Occasion,
    Setting, TokenCall,
};
use crate::invoice::InvoiceView;
use crate::laws::moves::{in_range, question, refusal};
use crate::query::settlement_begun;
use crate::settle::{batch_error, batch_size, batch_state};
use crate::step::{Query, Replies, Stop};
use crate::token::TokenView;
use crate::types::{
    Address, BatchSettleResult, InvoiceError, InvoiceStatus, JournalEntry, KycState, Ledger,
};
use vstd::prelude::*;

verus! {

/// The journal with one more transition, at the time of the call.
pub open spec fn with_entry(
    invoice: InvoiceView,
    to: InvoiceStatus,
    ledger: Ledger,
) -> Seq<JournalEntry> {
    invoice.journal.push(
        JournalEntry {
            from_status: invoice.status,
            to_status: to,
            ledger: ledger.sequence,
            timestamp: ledger.timestamp,
        },
    )
}

/// Tokens are issued exactly when the administrator authorizes it, the KYC registry approves
/// the receiver, no settlement has begun, the invoice is on record, and the supply with the
/// amount, which is not negative, is no more than the face value; as long as all numbers are
/// within 128 bits. Each refusal comes exactly where the condition that it names is the
/// first that fails.
pub proof fn law_issue_goes_through_exactly_within_face_value(
    invoice: InvoiceView,
    s: Setting,
    to: Address,
    amount: i128,
)
    ensures
        ({
            let verdict = invoice_verdict(invoice, s, InvoiceCall::Issue { to, amount });
            let authorized = s.replies.authorized == Some(true);
            let approved = authorized && s.replies.kyc == Some(KycState::Approved);
            let open = approved && (invoice.status is Created || invoice.status is Issued);
            let known = open && invoice.meta is Some && in_range(invoice.supply + amount);
            let within = known && invoice.supply + amount <= invoice.meta->0.face_value_usd;
            &&& verdict is Ok <==> within && amount >= 0 && in_range(invoice.balance(to) + amount)
            &&& verdict == refusal(InvoiceError::KycNotApproved) <==> authorized && s.replies.kyc
                == Some(KycState::NotApproved)
            &&& verdict == refusal(InvoiceError::AlreadySettled) <==> approved && (invoice.status
                is PartiallySettled || invoice.status is FullySettled || invoice.status
                is Redeemed)
            &&& verdict == Err::<(), Stop<Seq<u8>>>(Stop::MissingInvoice) <==> open
                && invoice.meta is None
            &&& verdict == refusal(InvoiceError::OverSettlement) <==> known && invoice.supply
                + amount > invoice.meta->0.face_value_usd
            &&& verdict == refusal(InvoiceError::NegativeAmount) <==> within && amount < 0
            &&& verdict == question(Query::Kyc(to)) <==> authorized && s.replies.kyc is None
            &&& verdict == Err::<(), Stop<Seq<u8>>>(Stop::Overflow) <==> (open
                && invoice.meta is Some && !in_range(invoice.supply + amount)) || (within && amount
                >= 0 && !in_range(invoice.balance(to) + amount))
        }),
{
}

/// Issued tokens are new: the receiver and the supply have more by the amount, and nobody
/// else has more or less. The first tokens take the invoice from `Created` to `Issued`, and
/// its journal says so. Nothing else changes.
pub proof fn law_issue_adds_the_amount(
    invoice: InvoiceView,
    s: Setting,
    to: Address,
    amount: i128,
    holder: Address,
)
    requires
        invoice_verdict(invoice, s, InvoiceCall::Issue { to, amount }) is Ok,
    ensures
        ({
            let after = invoice_step(invoice, s, InvoiceCall::Issue { to, amount });
            &&& after.balance(holder) == invoice.balance(holder) + (if holder == to {
                amount as int
            } else {
                0
            })
            &&& after.supply == invoice.supply + amount
            &&& if invoice.status is Created && amount > 0 {
                after.status is Issued && after.journal == with_entry(
                    invoice,
                    InvoiceStatus::Issued,
                    s.ledger,
                )
            } else {
                after.status == invoice.status && after.journal == invoice.journal
            }
            &&& after.meta == invoice.meta
            &&& after.settlement == invoice.settlement
            &&& after.dust == invoice.dust
            &&& after.entitlements == invoice.entitlements
            &&& after.allowances == invoice.allowances
        }),
{
}

/// An invoice is settled in full exactly when the administrator authorizes it, the lifecycle
/// is not paused, the invoice is on record, and it is not settled in full or redeemed. Then
/// the settlement is the face value, none of it redeemed, and the journal says so. Nothing
/// else changes.
pub proof fn law_settlement_in_full(invoice: InvoiceView, s: Setting)
    ensures
        ({
            let verdict = invoice_verdict(invoice, s, InvoiceCall::Settle);
            let after = invoice_step(invoice, s, InvoiceCall::Settle);
            let authorized = s.replies.authorized == Some(true);
            let active = authorized && !s.paused;
            let known = active && invoice.meta is Some;
            let closed = invoice.status is FullySettled || invoice.status is Redeemed;
            &&& verdict is Ok <==> known && !closed
            &&& verdict == refusal(InvoiceError::LifecyclePaused) <==> authorized && s.paused
            &&& verdict == Err::<(), Stop<Seq<u8>>>(Stop::MissingInvoice) <==> active
                && invoice.meta is None
            &&& verdict == refusal(InvoiceError::AlreadySettled) <==> known && closed
            &&& known && !closed ==> {
                let paid = invoice.meta->0.face_value_usd;
                after == (InvoiceView {
                    status: InvoiceStatus::FullySettled,
                    journal: with_entry(invoice, InvoiceStatus::FullySettled, s.ledger),
                    settlement: paid,
                    dust: Some(paid),
                    ..invoice
                })
            }
        }),
{
}

/// A payment is put on record exactly when the administrator authorizes it, the lifecycle is
/// not paused, the payment is more than nothing, the invoice is on record, the payment is no
/// more than the face value, and no settlement has begun. A payment of the face value
/// settles the invoice in full, any other in part. The settlement is the payment, none of it
/// redeemed, and the journal says so. Nothing else changes.
pub proof fn law_settlement_by_payment(invoice: InvoiceView, s: Setting, amount: i128)
    ensures
        ({
            let verdict = invoice_verdict(invoice, s, InvoiceCall::PartialSettle { amount });
            let after = invoice_step(invoice, s, InvoiceCall::PartialSettle { amount });
            let face_value = invoice.meta->0.face_value_usd;
            let authorized = s.replies.authorized == Some(true);
            let active = authorized && !s.paused;
            let paying = active && amount > 0;
            let known = paying && invoice.meta is Some;
            let begun = !(invoice.status is Created || invoice.status is Issued);
            &&& verdict is Ok <==> known && amount <= face_value && !begun
            &&& verdict == refusal(InvoiceError::LifecyclePaused) <==> authorized && s.paused
            &&& verdict == refusal(InvoiceError::UnderSettlement) <==> active && amount <= 0
            &&& verdict == Err::<(), Stop<Seq<u8>>>(Stop::MissingInvoice) <==> paying
                && invoice.meta is None
            &&& verdict == refusal(InvoiceError::OverSettlement) <==> known && amount > face_value
            &&& verdict == refusal(InvoiceError::AlreadySettled) <==> known && amount
                <= face_value && begun
            &&& known && amount <= face_value && !begun ==> {
                let to = if amount < face_value {
                    InvoiceStatus::PartiallySettled
                } else {
                    InvoiceStatus::FullySettled
                };
                after == (InvoiceView {
                    status: to,
                    journal: with_entry(invoice, to, s.ledger),
                    settlement: amount,
                    dust: Some(amount),
                    ..invoice
                })
            }
        }),
{
}

/// A settlement has begun in every state but `Created` and `Issued`.
pub proof fn law_settlement_begins_after_issuance(status: InvoiceStatus)
    ensures
        settlement_begun(status) <==> status !is Created && status !is Issued,
{
}

/// A batch makes its payments one after another, each as a partial settlement that the
/// administrator has authorized, in the state that the ones before it led to, up to the
/// tenth. A payment that fails leaves its invoice as it was, and is reported with the code
/// of its error; a missing invoice has code 13. No payment touches another invoice, or
/// anything of the token but its invoices.
pub proof fn law_batch_makes_its_payments_in_turn(
    token: TokenView,
    ledger: Ledger,
    replies: Replies,
    settlements: Seq<(Seq<u8>, i128)>,
    index: nat,
    other: Seq<u8>,
)
    requires
        index < settlements.len(),
        replies.authorized == Some(true),
    ensures
        batch_size(settlements.len()) <= 10,
        batch_size(settlements.len()) == 10 || batch_size(settlements.len()) == settlements.len(),
        batch_size(settlements.len()) <= settlements.len(),
        batch_state(token, ledger, settlements, 0).token == token,
        batch_state(token, ledger, settlements, 0).results.len() == 0,
        ({
            let (id, amount) = settlements[index as int];
            let before = batch_state(token, ledger, settlements, index);
            let after = batch_state(token, ledger, settlements, index + 1);
            let call = InvoiceCall::PartialSettle { amount };
            let s = Setting {
                ledger,
                replies,
                paused: before.token.paused,
                exempt: before.token.fee_recipient_exempt,
            };
            let verdict = invoice_verdict(before.token.invoices[id], s, call);
            &&& after.token.invoices[id] == invoice_step(before.token.invoices[id], s, call)
            &&& other != id ==> after.token.invoices[other] == before.token.invoices[other]
            &&& after.token.invoices_list == before.token.invoices_list
            &&& after.token.paused == before.token.paused
            &&& after.token.fee_recipient_role == before.token.fee_recipient_role
            &&& after.token.fee_recipient_exempt == before.token.fee_recipient_exempt
            &&& after.results == before.results.push(
                BatchSettleResult {
                    invoice_id: id,
                    error: match verdict {
                        Ok(_) => None,
                        Err(Stop::Error(error)) => Some(error.spec_code()),
                        Err(_) => Some(13),
                    },
                },
            )
        }),
{
    let (id, amount) = settlements[index as int];
    let before = batch_state(token, ledger, settlements, index);
    let after = batch_state(token, ledger, settlements, index + 1);
    let s = Setting {
        ledger,
        replies,
        paused: before.token.paused,
        exempt: before.token.fee_recipient_exempt,
    };
    law_settlement_by_payment(before.token.invoices[id], s, amount);
    assert(batch_error(before.token.invoices[id], before.token.paused, amount) is None
        <==> invoice_verdict(
        before.token.invoices[id],
        s,
        InvoiceCall::PartialSettle { amount },
    ) is Ok);
}

/// A batch goes through exactly when the administrator authorizes it, whatever becomes of its
/// payments, and leads to what its payments lead to: all of them, but no more than ten.
pub proof fn law_batch_is_its_payments(
    token: TokenView,
    o: Occasion,
    settlements: Seq<(Seq<u8>, i128)>,
    count: nat,
)
    requires
        o.call == (TokenCall::BatchSettle { settlements }),
        count == settlements.len() <= 10 || count == 10 <= settlements.len(),
    ensures
        token_verdict(token, o) is Ok <==> o.replies.authorized == Some(true),
        ({
            let state = batch_state(token, o.ledger, settlements, count);
            &&& o.replies.authorized == Some(true) ==> token_step(token, o) == state.token
            &&& token_effects(token, o) == state.effects
        }),
{
}

} // verus!
