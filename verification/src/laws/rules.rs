//! Rules that hold across calls.

use crate::effect::{store, Effect, Event};
use crate::history::{
    after_calls, invoice_after, invoice_effects, invoice_step, invoice_verdict, token_step,
    token_verdict, InvoiceCall, Occasion, Setting, TokenCall,
};
use crate::invoice::InvoiceView;
use crate::laws::every_state::lemma_ever_after;
use crate::query::{settlement_begun, usable};
use crate::settle::{batch_size, batch_state};
use crate::step::{Replies, Stop};
use crate::token::TokenView;
use crate::transfer::{fee_on, fee_recipient, fixes_entitlement};
use crate::types::{Address, DataKey, InvoiceError, InvoiceMeta, Ledger, TransferDecision};
use vstd::prelude::*;

verus! {

// ---- Refusal ----

/// A call that does not go through changes nothing.
pub proof fn law_refused_call_changes_nothing(token: TokenView, o: Occasion)
    requires
        token_verdict(token, o) is Err,
    ensures
        token_step(token, o) == token,
{
}

// ---- Independence of invoices ----

/// The call names the invoice.
pub open spec fn concerns(o: Occasion, id: Seq<u8>) -> bool {
    match o.call {
        TokenCall::Constructor { meta, .. } => meta.invoice_id == id,
        TokenCall::CreateInvoice { meta } => meta.invoice_id == id,
        TokenCall::OnInvoice { id: named, call } => named == id,
        TokenCall::BatchSettle { settlements } => exists|i: int|
            0 <= i < settlements.len() && (#[trigger] settlements[i]).0 == id,
        _ => false,
    }
}

/// Invoices are independent: a call changes only those that it names.
pub proof fn law_call_changes_only_named_invoices(token: TokenView, o: Occasion, id: Seq<u8>)
    requires
        !concerns(o, id),
    ensures
        token_step(token, o).invoices[id] == token.invoices[id],
{
    match o.call {
        TokenCall::BatchSettle { settlements } => {
            lemma_batch_changes_only_named(
                token,
                o.ledger,
                settlements,
                batch_size(settlements.len()),
                id,
            );
        },
        _ => {},
    }
}

proof fn lemma_batch_changes_only_named(
    token: TokenView,
    ledger: Ledger,
    settlements: Seq<(Seq<u8>, i128)>,
    count: nat,
    id: Seq<u8>,
)
    requires
        count <= settlements.len(),
        forall|i: int| 0 <= i < settlements.len() ==> (#[trigger] settlements[i]).0 != id,
    ensures
        batch_state(token, ledger, settlements, count).token.invoices[id] == token.invoices[id],
        batch_state(token, ledger, settlements, count).token.invoices_list == token.invoices_list,
        batch_state(token, ledger, settlements, count).token.paused == token.paused,
    decreases count,
{
    if count > 0 {
        lemma_batch_changes_only_named(token, ledger, settlements, (count - 1) as nat, id);
        assert(settlements[count - 1].0 != id);
    }
}

// ---- Pausing ----

/// The call settles or redeems.
pub open spec fn settles_or_redeems(call: InvoiceCall) -> bool {
    match call {
        InvoiceCall::Settle => true,
        InvoiceCall::PartialSettle { .. } => true,
        InvoiceCall::BatchPayment { .. } => true,
        InvoiceCall::Redeem { .. } => true,
        _ => false,
    }
}

/// While the lifecycle is paused, nothing is settled or redeemed.
pub proof fn law_pause_blocks_settlement_and_redemption(
    invoice: InvoiceView,
    s: Setting,
    call: InvoiceCall,
)
    requires
        s.paused,
        settles_or_redeems(call),
    ensures
        invoice_verdict(invoice, s, call) is Err,
        invoice_step(invoice, s, call) == invoice,
{
}

/// Pausing the lifecycle makes no difference to any other call.
pub proof fn law_pause_affects_nothing_else(
    invoice: InvoiceView,
    s: Setting,
    call: InvoiceCall,
    paused: bool,
)
    requires
        !settles_or_redeems(call),
    ensures
        invoice_verdict(invoice, (Setting { paused, ..s }), call) == invoice_verdict(
            invoice,
            s,
            call,
        ),
        invoice_step(invoice, (Setting { paused, ..s }), call) == invoice_step(invoice, s, call),
{
}

// ---- After settlement ----

/// Once settlement has begun, no tokens are issued, the metadata stays as it is, and no
/// further partial payment is accepted.
pub proof fn law_settlement_ends_issuance(invoice: InvoiceView, s: Setting, call: InvoiceCall)
    requires
        settlement_begun(invoice.status),
        match call {
            InvoiceCall::Issue { .. } => true,
            InvoiceCall::UpdateMeta { .. } => true,
            InvoiceCall::PartialSettle { .. } => true,
            InvoiceCall::BatchPayment { .. } => true,
            _ => false,
        },
    ensures
        invoice_verdict(invoice, s, call) is Err,
{
}

/// Before issuance, after full settlement and after the due date, nothing is transferred.
pub proof fn law_transfers_end(
    invoice: InvoiceView,
    s: Setting,
    spender: Address,
    from: Address,
    to: Address,
    amount: i128,
)
    requires
        invoice.status is Created || invoice.status is FullySettled || invoice.status is Redeemed
            || (invoice.meta matches Some(meta) && s.ledger.timestamp > meta.due_date),
    ensures
        invoice_verdict(invoice, s, InvoiceCall::Transfer { from, to, amount }) is Err,
        invoice_verdict(invoice, s, InvoiceCall::TransferFrom { spender, from, to, amount }) is Err,
{
}

// ---- Allowances ----

/// An allowance that is given can be used up to its expiration ledger, and not after.
pub proof fn law_allowance_reads_back(
    invoice: InvoiceView,
    s: Setting,
    from: Address,
    spender: Address,
    amount: i128,
    expiration_ledger: u32,
    now: Ledger,
)
    requires
        invoice_verdict(
            invoice,
            s,
            InvoiceCall::Approve { from, spender, amount, expiration_ledger },
        ) is Ok,
    ensures
        usable(
            invoice_step(
                invoice,
                s,
                InvoiceCall::Approve { from, spender, amount, expiration_ledger },
            ).allowance(from, spender),
            now,
        ) == if now.sequence <= expiration_ledger {
            amount
        } else {
            0
        },
{
}

/// A spender moves or burns only what a usable allowance covers, and the allowance is
/// less by as much.
pub proof fn law_allowance_is_used_up(
    invoice: InvoiceView,
    s: Setting,
    spender: Address,
    from: Address,
    to: Address,
    amount: i128,
    call: InvoiceCall,
)
    requires
        call == (InvoiceCall::TransferFrom { spender, from, to, amount }) || call == (
        InvoiceCall::BurnFrom { spender, from, amount }),
        invoice_verdict(invoice, s, call) is Ok,
    ensures
        amount <= usable(invoice.allowance(from, spender), s.ledger),
        invoice_step(invoice, s, call).allowance(from, spender).amount == invoice.allowance(
            from,
            spender,
        ).amount - amount,
        invoice_step(invoice, s, call).allowance(from, spender).expiration_ledger
            == invoice.allowance(from, spender).expiration_ledger,
{
}

/// A delegated transfer that the allowance covers goes through exactly when a direct one
/// does, and is refused for the same reason. It leads to the same record but for the
/// allowance, and to the same registrations and events.
pub proof fn law_delegated_transfer_is_a_transfer(
    invoice: InvoiceView,
    s: Setting,
    id: Seq<u8>,
    spender: Address,
    from: Address,
    to: Address,
    amount: i128,
)
    requires
        s.replies.authorized is Some,
        amount <= invoice.allowance(from, spender).amount,
        s.ledger.sequence <= invoice.allowance(from, spender).expiration_ledger,
    ensures
        ({
            let direct = InvoiceCall::Transfer { from, to, amount };
            let delegated = InvoiceCall::TransferFrom { spender, from, to, amount };
            let after = invoice_after(invoice, s, delegated);
            &&& invoice_verdict(invoice, s, delegated) == invoice_verdict(invoice, s, direct)
            &&& after == (InvoiceView {
                allowances: after.allowances,
                ..invoice_after(invoice, s, direct)
            })
            &&& invoice_effects(invoice, s, id, direct)[0] == Effect::<Seq<u8>>::ExtendInstance
            &&& invoice_effects(invoice, s, id, delegated)[0] == store(
                DataKey::Allowance(from, spender, id),
                false,
            )
            &&& invoice_effects(invoice, s, id, delegated).skip(1) == invoice_effects(
                invoice,
                s,
                id,
                direct,
            ).skip(1)
        }),
{
    let direct = InvoiceCall::Transfer { from, to, amount };
    let delegated = InvoiceCall::TransferFrom { spender, from, to, amount };
    assert(invoice_effects(invoice, s, id, delegated).skip(1) =~= invoice_effects(
        invoice,
        s,
        id,
        direct,
    ).skip(1));
}

/// A delegated burn that the allowance covers goes through exactly when a direct one does,
/// and is refused for the same reason. It leads to the same record but for the allowance,
/// and to the same events.
pub proof fn law_delegated_burn_is_a_burn(
    invoice: InvoiceView,
    s: Setting,
    id: Seq<u8>,
    spender: Address,
    from: Address,
    amount: i128,
)
    requires
        s.replies.authorized is Some,
        amount <= invoice.allowance(from, spender).amount,
        s.ledger.sequence <= invoice.allowance(from, spender).expiration_ledger,
    ensures
        ({
            let direct = InvoiceCall::Burn { from, amount };
            let delegated = InvoiceCall::BurnFrom { spender, from, amount };
            let after = invoice_after(invoice, s, delegated);
            &&& invoice_verdict(invoice, s, delegated) == invoice_verdict(invoice, s, direct)
            &&& after == (InvoiceView {
                allowances: after.allowances,
                ..invoice_after(invoice, s, direct)
            })
            &&& invoice_effects(invoice, s, id, delegated) == seq![
                store(DataKey::Allowance(from, spender, id), false),
            ] + invoice_effects(invoice, s, id, direct)
        }),
{
    let direct = InvoiceCall::Burn { from, amount };
    let delegated = InvoiceCall::BurnFrom { spender, from, amount };
    assert(invoice_effects(invoice, s, id, delegated) =~= seq![
        store(DataKey::Allowance(from, spender, id), false),
    ] + invoice_effects(invoice, s, id, direct));
}

// ---- Fees ----

/// While the fee recipient is exempt, what the compliance engine says of the fee makes no
/// difference, and a fee is announced as unchecked.
pub proof fn law_exemption_skips_the_fee_check(
    invoice: InvoiceView,
    s: Setting,
    id: Seq<u8>,
    from: Address,
    to: Address,
    amount: i128,
    decision: Option<TransferDecision>,
)
    requires
        s.exempt,
    ensures
        ({
            let call = InvoiceCall::Transfer { from, to, amount };
            let other = Setting { replies: Replies { fee_transfer: decision, ..s.replies }, ..s };
            &&& invoice_verdict(invoice, other, call) == invoice_verdict(invoice, s, call)
            &&& invoice_effects(invoice, s, id, call).contains(
                Effect::Publish(Event::FeeCheckSkipped(fee_recipient(invoice))),
            ) <==> fee_on(invoice, amount) > 0
        }),
{
    let call = InvoiceCall::Transfer { from, to, amount };
    let effects = invoice_effects(invoice, s, id, call);
    let skipped = Effect::<Seq<u8>>::Publish(Event::FeeCheckSkipped(fee_recipient(invoice)));
    if fee_on(invoice, amount) > 0 {
        assert(effects[if fixes_entitlement(invoice) {
            4
        } else {
            3
        }] == skipped);
    }
}

/// Unless exempt, a transfer with a fee is refused where the compliance engine denies the
/// fee.
pub proof fn law_denied_fee_refuses_the_transfer(
    invoice: InvoiceView,
    s: Setting,
    from: Address,
    to: Address,
    amount: i128,
)
    requires
        !s.exempt,
        fee_on(invoice, amount) > 0,
        s.replies.fee_transfer matches Some(TransferDecision::Deny { .. }),
    ensures
        invoice_verdict(invoice, s, InvoiceCall::Transfer { from, to, amount }) is Err,
{
}

// ---- Batches ----

/// A payment of a batch goes by the rules of a partial settlement that the administrator
/// has authorized: it leads to the same state, and fails with the same error, except that
/// a missing invoice is reported as such.
pub proof fn law_batch_payment_is_partial_settlement(
    invoice: InvoiceView,
    s: Setting,
    amount: i128,
)
    requires
        s.replies.authorized == Some(true),
    ensures
        ({
            let single = InvoiceCall::PartialSettle { amount };
            let of_batch = InvoiceCall::BatchPayment { amount };
            &&& invoice_step(invoice, s, of_batch) == invoice_step(invoice, s, single)
            &&& invoice_verdict(invoice, s, of_batch) == match invoice_verdict(invoice, s, single) {
                Err(Stop::MissingInvoice) => Err(Stop::Error(InvoiceError::InvoiceNotFound)),
                verdict => verdict,
            }
        }),
{
}

// ---- Creation ----

/// An invoice that was created is found, at the end of the list, and starts out blank.
pub proof fn law_created_invoice_is_found(token: TokenView, o: Occasion, meta: InvoiceMeta<Seq<u8>>)
    requires
        match o.call {
            TokenCall::CreateInvoice { meta: given } => given == meta,
            TokenCall::Constructor { meta: given, .. } => given == meta,
            _ => false,
        },
        token_verdict(token, o) is Ok,
    ensures
        ({
            let after = token_step(token, o);
            let invoice = after.invoices[meta.invoice_id];
            &&& invoice.meta == Some(meta)
            &&& invoice.status is Created
            &&& invoice.supply == 0
            &&& invoice.journal.len() == 0
            &&& after.invoices_list == token.invoices_list.push(meta.invoice_id)
        }),
{
}

/// Metadata once on record stays on record, so that no id is used twice: whatever calls
/// are made in between, a second creation under the id is refused.
pub proof fn law_no_invoice_is_created_twice(
    calls: Seq<Occasion>,
    earlier: nat,
    later: nat,
    replies: Replies,
    ledger: Ledger,
    meta: InvoiceMeta<Seq<u8>>,
)
    requires
        earlier <= later <= calls.len(),
        after_calls(calls, earlier).invoices[meta.invoice_id].meta is Some,
    ensures
        after_calls(calls, later).invoices[meta.invoice_id].meta is Some,
        token_verdict(
            after_calls(calls, later),
            Occasion { ledger, replies, call: TokenCall::CreateInvoice { meta } },
        ) is Err,
{
    let start = after_calls(calls, earlier);
    let property = |id: Seq<u8>, invoice: InvoiceView|
        start.invoices[id].meta is Some ==> invoice.meta is Some;
    let any = |invoice: InvoiceView, call: InvoiceCall| true;
    lemma_ever_after(property, any, calls, earlier, later);
    assert(property(
        meta.invoice_id,
        after_calls(calls, later).invoices[meta.invoice_id],
    ));
}

/// The listed invoices are on record.
pub open spec fn listed_are_on_record(token: TokenView) -> bool {
    &&& token.invoices_list.no_duplicates()
    &&& forall|i: int|
        0 <= i < token.invoices_list.len() ==> token.invoices[
        #[trigger] token.invoices_list[i]].meta is Some
}

/// In every state of the token, the list of invoices names none twice, and all that it
/// names are on record.
pub proof fn law_list_names_each_invoice_once(calls: Seq<Occasion>, count: nat)
    requires
        count <= calls.len(),
    ensures
        listed_are_on_record(after_calls(calls, count)),
    decreases count,
{
    if count > 0 {
        let last = (count - 1) as nat;
        law_list_names_each_invoice_once(calls, last);
        let before = after_calls(calls, last);
        let after = after_calls(calls, count);
        let property = |id: Seq<u8>, invoice: InvoiceView|
            before.invoices[id].meta is Some ==> invoice.meta is Some;
        let any = |invoice: InvoiceView, call: InvoiceCall| true;
        lemma_ever_after(property, any, calls, last, count);
        let o = calls[last as int];
        match o.call {
            TokenCall::BatchSettle { settlements } => {
                lemma_batch_keeps_list(
                    before,
                    o.ledger,
                    settlements,
                    batch_size(settlements.len()),
                );
            },
            _ => {},
        }
        assert forall|i: int| 0 <= i < after.invoices_list.len() implies after.invoices[
        #[trigger] after.invoices_list[i]].meta is Some by {
            let id = after.invoices_list[i];
            if i < before.invoices_list.len() {
                assert(before.invoices_list[i] == id);
            }
            assert(property(id, after.invoices[id]));
        }
        assert(after.invoices_list.no_duplicates());
    }
}

proof fn lemma_batch_keeps_list(
    token: TokenView,
    ledger: Ledger,
    settlements: Seq<(Seq<u8>, i128)>,
    count: nat,
)
    requires
        count <= settlements.len(),
    ensures
        batch_state(token, ledger, settlements, count).token.invoices_list == token.invoices_list,
    decreases count,
{
    if count > 0 {
        lemma_batch_keeps_list(token, ledger, settlements, (count - 1) as nat);
    }
}

} // verus!
