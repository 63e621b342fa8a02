//! Calls as values, and what a sequence of calls leads to.

use crate::admin::{
    approve_verdict, approved, created, creation_passes, update_meta_verdict, with_creation,
};
use crate::effect::{store, Effect, EffectLog, Event};
use crate::invoice::InvoiceView;
use crate::redeem::{
    burn_from_verdict, burn_verdict, burned, redeem_effects, redeem_verdict, redeemed, with_burn,
};
use crate::settle::{
    batch_error, batch_size, batch_state, fully_settled, issue_effects, issue_verdict, issued,
    partial_settle_verdict, partially_settled, settle_effects, settle_verdict, with_payment,
};
use crate::step::{
    admin_authorizes, compliance_allows, kyc_approves, verdict_of, InTurn, Replies, Stop, Verdict,
};
use crate::token::TokenView;
use crate::transfer::{
    spent, transfer_effects, transfer_from_effects, transfer_from_verdict, transfer_verdict,
    transferred,
};
use crate::types::{Address, DataKey, InvoiceMeta, Ledger};
use vstd::prelude::*;

verus! {

/// A call that concerns one invoice.
pub enum InvoiceCall {
    UpdateMeta { meta: InvoiceMeta<Seq<u8>> },
    Issue { to: Address, amount: i128 },
    Settle,
    PartialSettle { amount: i128 },
    /// One payment of a batch.
    BatchPayment { amount: i128 },
    Redeem { from: Address, amount: i128 },
    Burn { from: Address, amount: i128 },
    BurnFrom { spender: Address, from: Address, amount: i128 },
    Transfer { from: Address, to: Address, amount: i128 },
    TransferFrom { spender: Address, from: Address, to: Address, amount: i128 },
    Approve { from: Address, spender: Address, amount: i128, expiration_ledger: u32 },
}

/// What a call on an invoice runs in.
pub struct Setting {
    pub ledger: Ledger,
    pub replies: Replies,
    pub paused: bool,
    pub exempt: bool,
}

/// Whether a call on an invoice goes through.
pub open spec fn invoice_verdict(invoice: InvoiceView, s: Setting, call: InvoiceCall) -> Verdict {
    match call {
        InvoiceCall::UpdateMeta { meta } => update_meta_verdict(invoice, s.replies, meta),
        InvoiceCall::Issue { to, amount } => issue_verdict(invoice, s.replies, to, amount),
        InvoiceCall::Settle => settle_verdict(invoice, s.paused, s.replies),
        InvoiceCall::PartialSettle { amount } => partial_settle_verdict(
            invoice,
            s.paused,
            s.replies,
            amount,
        ),
        InvoiceCall::BatchPayment { amount } => match batch_error(invoice, s.paused, amount) {
            Some(error) => Err(Stop::Error(error)),
            None => Ok(()),
        },
        InvoiceCall::Redeem { from, amount } => redeem_verdict(
            invoice,
            s.paused,
            s.replies,
            from,
            amount,
        ),
        InvoiceCall::Burn { from, amount } => burn_verdict(invoice, s.replies, from, amount),
        InvoiceCall::BurnFrom { spender, from, amount } => burn_from_verdict(
            invoice,
            s.ledger,
            s.replies,
            spender,
            from,
            amount,
        ),
        InvoiceCall::Transfer { from, to, amount } => transfer_verdict(
            invoice,
            s.exempt,
            s.ledger,
            s.replies,
            from,
            to,
            amount,
        ),
        InvoiceCall::TransferFrom { spender, from, to, amount } => transfer_from_verdict(
            invoice,
            s.exempt,
            s.ledger,
            s.replies,
            spender,
            from,
            to,
            amount,
        ),
        InvoiceCall::Approve { from, spender, amount, expiration_ledger } => approve_verdict(
            s.replies,
            from,
            amount,
        ),
    }
}

/// The invoice after a call on it that goes through.
pub open spec fn invoice_after(
    invoice: InvoiceView,
    s: Setting,
    call: InvoiceCall,
) -> InvoiceView {
    match call {
        InvoiceCall::UpdateMeta { meta } => InvoiceView { meta: Some(meta), ..invoice },
        InvoiceCall::Issue { to, amount } => issued(invoice, s.ledger, to, amount),
        InvoiceCall::Settle => fully_settled(invoice, s.ledger),
        InvoiceCall::PartialSettle { amount } => partially_settled(invoice, s.ledger, amount),
        InvoiceCall::BatchPayment { amount } => partially_settled(invoice, s.ledger, amount),
        InvoiceCall::Redeem { from, amount } => redeemed(invoice, s.ledger, from, amount),
        InvoiceCall::Burn { from, amount } => burned(invoice, s.ledger, from, amount),
        InvoiceCall::BurnFrom { spender, from, amount } => burned(
            spent(invoice, from, spender, amount),
            s.ledger,
            from,
            amount,
        ),
        InvoiceCall::Transfer { from, to, amount } => transferred(invoice, from, to, amount),
        InvoiceCall::TransferFrom { spender, from, to, amount } => transferred(
            spent(invoice, from, spender, amount),
            from,
            to,
            amount,
        ),
        InvoiceCall::Approve { from, spender, amount, expiration_ledger } => approved(
            invoice,
            from,
            spender,
            amount,
            expiration_ledger,
        ),
    }
}

/// The invoice after a call on it. A call that does not go through changes nothing.
pub open spec fn invoice_step(invoice: InvoiceView, s: Setting, call: InvoiceCall) -> InvoiceView {
    if invoice_verdict(invoice, s, call) is Ok {
        invoice_after(invoice, s, call)
    } else {
        invoice
    }
}

/// The effects of a call on an invoice that goes through.
pub open spec fn invoice_effects(
    invoice: InvoiceView,
    s: Setting,
    id: Seq<u8>,
    call: InvoiceCall,
) -> Seq<Effect<Seq<u8>>> {
    match call {
        InvoiceCall::UpdateMeta { meta } => seq![
            store(DataKey::InvoiceMeta(id), false),
            Effect::Publish(Event::MetaUpdated),
        ],
        InvoiceCall::Issue { to, amount } => issue_effects(invoice, id, to, amount),
        InvoiceCall::Settle => settle_effects(invoice, id),
        InvoiceCall::PartialSettle { amount } => with_payment(
            seq![Effect::ExtendInstance],
            id,
            amount,
        ),
        InvoiceCall::BatchPayment { amount } => with_payment(Seq::empty(), id, amount),
        InvoiceCall::Redeem { from, amount } => redeem_effects(invoice, id, from, amount),
        InvoiceCall::Burn { from, amount } => with_burn(Seq::empty(), invoice, id, from, amount),
        InvoiceCall::BurnFrom { spender, from, amount } => with_burn(
            seq![store(DataKey::Allowance(from, spender, id), false)],
            invoice,
            id,
            from,
            amount,
        ),
        InvoiceCall::Transfer { from, to, amount } => transfer_effects(
            invoice,
            s.exempt,
            id,
            from,
            to,
            amount,
        ),
        InvoiceCall::TransferFrom { spender, from, to, amount } => transfer_from_effects(
            invoice,
            s.exempt,
            id,
            spender,
            from,
            to,
            amount,
        ),
        InvoiceCall::Approve { from, spender, amount, expiration_ledger } => seq![
            store(DataKey::Allowance(from, spender, id), true),
            Effect::Publish(
                Event::Approved { from, spender, invoice_id: id, amount, expiration_ledger },
            ),
        ],
    }
}

/// A call that may change the token.
pub enum TokenCall {
    Constructor {
        admin: Address,
        kyc_registry: Address,
        compliance_engine: Address,
        meta: InvoiceMeta<Seq<u8>>,
    },
    CreateInvoice { meta: InvoiceMeta<Seq<u8>> },
    OnInvoice { id: Seq<u8>, call: InvoiceCall },
    BatchSettle { settlements: Seq<(Seq<u8>, i128)> },
    SetFeeRecipient { addr: Address },
    SetFeeRecipientExempt { exempt: bool },
    PauseLifecycle,
    UnpauseLifecycle,
}

/// A call with the ledger in which it runs and the answers that it gets.
pub struct Occasion {
    pub ledger: Ledger,
    pub replies: Replies,
    pub call: TokenCall,
}

/// What a call on an invoice runs in.
pub open spec fn setting(token: TokenView, ledger: Ledger, replies: Replies) -> Setting {
    Setting { ledger, replies, paused: token.paused, exempt: token.fee_recipient_exempt }
}

/// Whether a call goes through.
pub open spec fn token_verdict(token: TokenView, o: Occasion) -> Verdict {
    match o.call {
        TokenCall::Constructor { meta, .. } => creation_passes(token, o.replies, meta),
        TokenCall::CreateInvoice { meta } => admin_authorizes(o.replies).and_next(
            creation_passes(token, o.replies, meta),
        ),
        TokenCall::OnInvoice { id, call } => invoice_verdict(
            token.invoices[id],
            setting(token, o.ledger, o.replies),
            call,
        ),
        TokenCall::BatchSettle { settlements } => admin_authorizes(o.replies),
        TokenCall::SetFeeRecipient { addr } => admin_authorizes(o.replies).and_next(
            kyc_approves(o.replies, addr),
        ).and_next(compliance_allows(o.replies, addr, addr, 0)),
        TokenCall::SetFeeRecipientExempt { exempt } => admin_authorizes(o.replies),
        TokenCall::PauseLifecycle => admin_authorizes(o.replies),
        TokenCall::UnpauseLifecycle => admin_authorizes(o.replies),
    }
}

/// The token after a call that goes through.
pub open spec fn token_after(token: TokenView, o: Occasion) -> TokenView {
    match o.call {
        TokenCall::Constructor { meta, .. } => created(token, meta),
        TokenCall::CreateInvoice { meta } => created(token, meta),
        TokenCall::OnInvoice { id, call } => token.with_invoice(
            id,
            invoice_after(token.invoices[id], setting(token, o.ledger, o.replies), call),
        ),
        TokenCall::BatchSettle { settlements } => batch_state(
            token,
            o.ledger,
            settlements,
            batch_size(settlements.len()),
        ).token,
        TokenCall::SetFeeRecipient { addr } => TokenView {
            fee_recipient_role: Some(addr),
            ..token
        },
        TokenCall::SetFeeRecipientExempt { exempt } => TokenView {
            fee_recipient_exempt: exempt,
            ..token
        },
        TokenCall::PauseLifecycle => TokenView { paused: true, ..token },
        TokenCall::UnpauseLifecycle => TokenView { paused: false, ..token },
    }
}

/// The effects of a call that goes through.
pub open spec fn token_effects(token: TokenView, o: Occasion) -> Seq<Effect<Seq<u8>>> {
    match o.call {
        TokenCall::Constructor { admin, kyc_registry, compliance_engine, meta } => with_creation(
            seq![
                Effect::WriteAdmin(admin),
                Effect::WriteKycRegistry(kyc_registry),
                Effect::WriteComplianceEngine(compliance_engine),
            ],
            meta.invoice_id,
        ),
        TokenCall::CreateInvoice { meta } => with_creation(
            seq![Effect::ExtendInstance],
            meta.invoice_id,
        ),
        TokenCall::OnInvoice { id, call } => invoice_effects(
            token.invoices[id],
            setting(token, o.ledger, o.replies),
            id,
            call,
        ),
        TokenCall::BatchSettle { settlements } => batch_state(
            token,
            o.ledger,
            settlements,
            batch_size(settlements.len()),
        ).effects,
        TokenCall::SetFeeRecipient { addr } => seq![
            Effect::ExtendInstance,
            store(DataKey::FeeRecipientRole, false),
            Effect::Publish(Event::FeeRecipientSet(addr)),
        ],
        TokenCall::SetFeeRecipientExempt { exempt } => seq![
            Effect::ExtendInstance,
            store(DataKey::FeeRecipientExempt, false),
            Effect::Publish(Event::FeeExemptionSet(exempt)),
        ],
        TokenCall::PauseLifecycle => seq![
            Effect::ExtendInstance,
            store(DataKey::LifecyclePaused, false),
            Effect::Publish(Event::LifecyclePaused),
        ],
        TokenCall::UnpauseLifecycle => seq![
            Effect::ExtendInstance,
            store(DataKey::LifecyclePaused, false),
            Effect::Publish(Event::LifecycleResumed),
        ],
    }
}

/// The token after a call. A call that does not go through changes nothing.
pub open spec fn token_step(token: TokenView, o: Occasion) -> TokenView {
    if token_verdict(token, o) is Ok {
        token_after(token, o)
    } else {
        token
    }
}

/// The call has this result, and leads from the one state to the other.
pub open spec fn leads_to(
    before: TokenView,
    o: Occasion,
    result: Result<EffectLog, Stop>,
    after: TokenView,
) -> bool {
    &&& verdict_of(result) == token_verdict(before, o)
    &&& after == token_step(before, o)
    &&& result matches Ok(log) ==> log@ == token_effects(before, o)
}

/// The token after the first `count` calls of a sequence, from the beginning.
pub open spec fn after_calls(calls: Seq<Occasion>, count: nat) -> TokenView
    decreases count,
{
    if count == 0 {
        TokenView::empty()
    } else {
        token_step(after_calls(calls, (count - 1) as nat), calls[count - 1])
    }
}

/// The call on one invoice that a call on the token makes on the way, if it makes one.
pub open spec fn part_on(o: Occasion, index: nat) -> Option<(Seq<u8>, InvoiceCall)> {
    match o.call {
        TokenCall::OnInvoice { id, call } => if index == 0 {
            Some((id, call))
        } else {
            None
        },
        TokenCall::BatchSettle { settlements } => if index < batch_size(settlements.len()) {
            Some(
                (
                    settlements[index as int].0,
                    InvoiceCall::BatchPayment { amount: settlements[index as int].1 },
                ),
            )
        } else {
            None
        },
        _ => None,
    }
}

/// The token before a given call on one invoice is made on the way.
pub open spec fn before_part(token: TokenView, o: Occasion, index: nat) -> TokenView {
    match o.call {
        TokenCall::BatchSettle { settlements } => batch_state(
            token,
            o.ledger,
            settlements,
            index,
        ).token,
        _ => token,
    }
}

} // verus!
