//! What holders can redeem.

use crate::admin::created_invoice;
use crate::amount::{share, signed};
use crate::history::{
    after_calls, invoice_step, invoice_verdict, setting, token_verdict, InvoiceCall, Occasion,
    Setting, TokenCall,
};
use crate::invoice::{held, InvoiceView};
use crate::laws::every_state::{
    all_calls, kept_by, kept_by_creation, lemma_every_state, valid_meta,
};
use crate::laws::lifecycle::{
    journal_complete, law_journal_is_append_only, law_journal_stays_complete,
    law_transition_is_permitted_and_recorded,
};
use crate::laws::soundness::{
    law_balance_is_part_of_supply, law_invoice_stays_sound, lemma_creation_is_sound, sound,
};
use crate::redeem::{partial_claim, redeemable_state, redemption_cap};
use crate::settle::{batch_size, batch_state, unsettled};
use crate::supply::lemma_total_of_nothing;
use crate::token::TokenView;
use crate::transfer::{fixes_entitlement, transferred};
use crate::types::{
    Address, InvoiceMeta, InvoiceStatus, JournalEntry, Ledger, TransferDecision,
};
use vstd::prelude::*;

verus! {

// ---- The face value ----

/// The invoice is sound, and its supply does not exceed its face value.
pub open spec fn within_face_value(invoice: InvoiceView) -> bool {
    &&& sound(invoice)
    &&& invoice.meta matches Some(meta) ==> invoice.supply <= meta.face_value_usd
}

/// The supply never exceeds the face value, unless the face value is lowered below it.
pub proof fn law_supply_stays_within_face_value(
    invoice: InvoiceView,
    s: Setting,
    call: InvoiceCall,
)
    requires
        within_face_value(invoice),
        call matches InvoiceCall::UpdateMeta { meta } ==> invoice.supply <= meta.face_value_usd,
    ensures
        within_face_value(invoice_step(invoice, s, call)),
{
    law_invoice_stays_sound(invoice, s, call);
}

// ---- The settlement ----

/// Before settlement none is on record; a partial one is less than the face value; a full
/// one is the face value.
pub open spec fn settlement_fits_state(invoice: InvoiceView) -> bool {
    &&& invoice.meta is None ==> invoice.status is Created
    &&& match invoice.status {
        InvoiceStatus::Created | InvoiceStatus::Issued => invoice.settlement == 0
            && invoice.dust is None,
        InvoiceStatus::PartiallySettled => 0 < invoice.settlement
            < invoice.meta->0.face_value_usd && invoice.dust is Some,
        InvoiceStatus::FullySettled => invoice.settlement == invoice.meta->0.face_value_usd
            && invoice.dust is Some,
        InvoiceStatus::Redeemed => invoice.dust is Some,
    }
}

/// In every state of the token, the settlement of every invoice is what its lifecycle
/// state says.
pub proof fn law_settlement_always_fits_state(calls: Seq<Occasion>, id: Seq<u8>)
    ensures
        settlement_fits_state(after_calls(calls, calls.len()).invoices[id]),
{
    let property = |id: Seq<u8>, invoice: InvoiceView| settlement_fits_state(invoice);
    let any = |invoice: InvoiceView, call: InvoiceCall| true;
    lemma_every_state(property, any, calls, calls.len());
    assert(property(id, after_calls(calls, calls.len()).invoices[id]));
}

// ---- The count of redemptions ----

/// A payment was put on record between the two states.
pub open spec fn payment_recorded(before: InvoiceView, after: InvoiceView) -> bool {
    after.status != before.status && redeemable_state(after.status)
}

/// What a call redeems of an invoice.
pub open spec fn redeemed_by(token: TokenView, o: Occasion, id: Seq<u8>) -> int {
    match o.call {
        TokenCall::OnInvoice {
            id: named,
            call: InvoiceCall::Redeem { amount, .. },
        } => if named == id && token_verdict(token, o) is Ok {
            amount as int
        } else {
            0
        },
        _ => 0,
    }
}

/// What the first `count` calls have redeemed of an invoice since its last payment.
pub open spec fn redeemed_since_payment(calls: Seq<Occasion>, count: nat, id: Seq<u8>) -> int
    decreases count,
{
    if count == 0 {
        0
    } else {
        let last = (count - 1) as nat;
        let before = after_calls(calls, last);
        let after = after_calls(calls, count);
        if payment_recorded(before.invoices[id], after.invoices[id]) {
            0
        } else {
            redeemed_since_payment(calls, last, id) + redeemed_by(before, calls[last as int], id)
        }
    }
}

proof fn lemma_batch_pays_once(
    token: TokenView,
    ledger: Ledger,
    settlements: Seq<(Seq<u8>, i128)>,
    count: nat,
    id: Seq<u8>,
)
    requires
        count <= settlements.len(),
    ensures
        ({
            let before = token.invoices[id];
            let after = batch_state(token, ledger, settlements, count).token.invoices[id];
            ||| after == before
            ||| unsettled(before.status) && payment_recorded(before, after) && after.dust == Some(
                after.settlement,
            )
        }),
    decreases count,
{
    if count > 0 {
        lemma_batch_pays_once(token, ledger, settlements, (count - 1) as nat, id);
    }
}

/// A sound invoice of which no more has been redeemed than there can be tokens.
pub open spec fn countable(invoice: InvoiceView) -> bool {
    &&& sound(invoice)
    &&& invoice.dust matches Some(dust) ==> invoice.supply - i128::MAX <= dust
}

proof fn lemma_stays_countable(invoice: InvoiceView, s: Setting, call: InvoiceCall)
    requires
        countable(invoice),
    ensures
        countable(invoice_step(invoice, s, call)),
{
    law_invoice_stays_sound(invoice, s, call);
    match call {
        InvoiceCall::Redeem { from, amount } => {
            law_balance_is_part_of_supply(invoice, from);
        },
        _ => {},
    }
}

proof fn lemma_always_countable(calls: Seq<Occasion>, count: nat, id: Seq<u8>)
    requires
        count <= calls.len(),
    ensures
        countable(after_calls(calls, count).invoices[id]),
{
    let property = |id: Seq<u8>, invoice: InvoiceView| countable(invoice);
    let any = |invoice: InvoiceView, call: InvoiceCall| true;
    lemma_total_of_nothing(InvoiceView::blank().balances);
    assert(kept_by(property, any)) by {
        assert forall|id: Seq<u8>, invoice: InvoiceView, s: Setting, call: InvoiceCall|
            #[trigger] property(id, invoice) && any(invoice, call) implies property(
            id,
            #[trigger] invoice_step(invoice, s, call),
        ) by {
            lemma_stays_countable(invoice, s, call);
        }
    }
    assert(kept_by_creation(property)) by {
        assert forall|id: Seq<u8>, invoice: InvoiceView, meta: InvoiceMeta<Seq<u8>>|
            #[trigger] property(id, invoice) && invoice.meta is None && valid_meta(
                meta,
            ) implies property(id, #[trigger] created_invoice(invoice, meta)) by {
            lemma_creation_is_sound(invoice, meta);
        }
    }
    lemma_every_state(property, any, calls, count);
    assert(property(id, after_calls(calls, count).invoices[id]));
}

/// A call either puts a payment on record, or takes what it redeems off the count.
proof fn lemma_call_is_counted(invoice: InvoiceView, s: Setting, call: InvoiceCall)
    requires
        countable(invoice),
    ensures
        ({
            let after = invoice_step(invoice, s, call);
            let amount = match call {
                InvoiceCall::Redeem { amount, .. } => if invoice_verdict(invoice, s, call) is Ok {
                    amount as int
                } else {
                    0
                },
                _ => 0,
            };
            if payment_recorded(invoice, after) {
                after.dust == Some(after.settlement)
            } else {
                &&& after.settlement == invoice.settlement
                &&& after.dust is Some == invoice.dust is Some
                &&& after.dust is Some ==> after.dust->0 == invoice.dust->0 - amount
            }
        }),
{
    match call {
        InvoiceCall::Redeem { from, amount } => {
            law_balance_is_part_of_supply(invoice, from);
        },
        _ => {},
    }
}

/// In every state of the token, what is reported as not redeemed of a settlement is the
/// settlement less all that has been redeemed since it was put on record.
pub proof fn law_dust_is_what_is_not_redeemed(calls: Seq<Occasion>, count: nat, id: Seq<u8>)
    requires
        count <= calls.len(),
    ensures
        ({
            let invoice = after_calls(calls, count).invoices[id];
            invoice.dust matches Some(dust) ==> dust == invoice.settlement
                - redeemed_since_payment(calls, count, id)
        }),
    decreases count,
{
    if count > 0 {
        let last = (count - 1) as nat;
        law_dust_is_what_is_not_redeemed(calls, last, id);
        let before = after_calls(calls, last);
        let o = calls[last as int];
        match o.call {
            TokenCall::OnInvoice { id: named, call } => {
                lemma_always_countable(calls, last, named);
                let s = setting(before, o.ledger, o.replies);
                lemma_call_is_counted(before.invoices[named], s, call);
                assert(after_calls(calls, count).invoices[named] == invoice_step(
                    before.invoices[named],
                    s,
                    call,
                ));
            },
            TokenCall::BatchSettle { settlements } => {
                lemma_batch_pays_once(
                    before,
                    o.ledger,
                    settlements,
                    batch_size(settlements.len()),
                    id,
                );
            },
            _ => {},
        }
    }
}

// ---- Redemption and the settlement ----

/// A sound invoice of which no more has been redeemed than was paid. After full settlement,
/// what is left covers the supply.
pub open spec fn covered(invoice: InvoiceView) -> bool {
    &&& sound(invoice)
    &&& invoice.dust matches Some(dust) ==> 0 <= dust <= invoice.settlement
    &&& invoice.status is FullySettled ==> invoice.dust is Some && invoice.supply
        <= invoice.dust->0
}

/// The call does not settle in full an invoice of which there are more tokens than its face
/// value, which can be so where the face value has been lowered after issuance.
pub open spec fn pays_for_supply(invoice: InvoiceView, call: InvoiceCall) -> bool {
    let settles_in_full = match call {
        InvoiceCall::Settle => true,
        InvoiceCall::PartialSettle { amount } => amount == invoice.meta->0.face_value_usd,
        InvoiceCall::BatchPayment { amount } => amount == invoice.meta->0.face_value_usd,
        _ => false,
    };
    settles_in_full && invoice.meta is Some ==> invoice.supply <= invoice.meta->0.face_value_usd
}

/// No call redeems more than what is left of the settlement.
pub proof fn law_settlement_stays_covered(invoice: InvoiceView, s: Setting, call: InvoiceCall)
    requires
        covered(invoice),
        pays_for_supply(invoice, call),
    ensures
        covered(invoice_step(invoice, s, call)),
{
    law_invoice_stays_sound(invoice, s, call);
    match call {
        InvoiceCall::Redeem { from, amount } => {
            law_balance_is_part_of_supply(invoice, from);
        },
        _ => {},
    }
}

/// Total redemption never exceeds the settlement, whatever part of the supply the payment
/// covers: in every state of the token, what has been redeemed of every invoice since its
/// payment is part of its settlement. Only an invoice that is settled in full after its
/// face value was lowered below its supply is left out, since there each holder may redeem
/// the entire balance.
pub proof fn law_redemption_never_exceeds_settlement(calls: Seq<Occasion>, id: Seq<u8>)
    requires
        all_calls(calls, |invoice: InvoiceView, call: InvoiceCall| pays_for_supply(invoice, call)),
    ensures
        ({
            let invoice = after_calls(calls, calls.len()).invoices[id];
            invoice.dust is Some ==> 0 <= redeemed_since_payment(calls, calls.len(), id)
                <= invoice.settlement
        }),
{
    let property = |id: Seq<u8>, invoice: InvoiceView| covered(invoice);
    let kind = |invoice: InvoiceView, call: InvoiceCall| pays_for_supply(invoice, call);
    lemma_total_of_nothing(InvoiceView::blank().balances);
    assert(kept_by(property, kind)) by {
        assert forall|id: Seq<u8>, invoice: InvoiceView, s: Setting, call: InvoiceCall|
            #[trigger] property(id, invoice) && kind(invoice, call) implies property(
            id,
            #[trigger] invoice_step(invoice, s, call),
        ) by {
            law_settlement_stays_covered(invoice, s, call);
        }
    }
    assert(kept_by_creation(property)) by {
        assert forall|id: Seq<u8>, invoice: InvoiceView, meta: InvoiceMeta<Seq<u8>>|
            #[trigger] property(id, invoice) && invoice.meta is None && valid_meta(
                meta,
            ) implies property(id, #[trigger] created_invoice(invoice, meta)) by {
            lemma_creation_is_sound(invoice, meta);
        }
    }
    lemma_every_state(property, kind, calls, calls.len());
    assert(property(id, after_calls(calls, calls.len()).invoices[id]));
    law_dust_is_what_is_not_redeemed(calls, calls.len(), id);
}

/// The journal has no transition to full settlement.
pub open spec fn never_settled_in_full(journal: Seq<JournalEntry>) -> bool {
    forall|i: int| 0 <= i < journal.len() ==> !((#[trigger] journal[i]).to_status is FullySettled)
}

/// A sound invoice with a complete journal, of which, unless it was settled in full, no more
/// has been redeemed than was paid.
pub open spec fn partial_payment_holds(invoice: InvoiceView) -> bool {
    &&& sound(invoice)
    &&& journal_complete(invoice)
    &&& never_settled_in_full(invoice.journal) ==> (invoice.dust matches Some(dust) ==> 0 <= dust
        <= invoice.settlement)
}

proof fn lemma_partial_payment_goes_on_to_hold(
    invoice: InvoiceView,
    s: Setting,
    call: InvoiceCall,
)
    requires
        partial_payment_holds(invoice),
    ensures
        partial_payment_holds(invoice_step(invoice, s, call)),
{
    let after = invoice_step(invoice, s, call);
    law_invoice_stays_sound(invoice, s, call);
    law_journal_stays_complete(invoice, s, call);
    law_transition_is_permitted_and_recorded(invoice, s, call);
    if never_settled_in_full(after.journal) {
        assert forall|i: int| 0 <= i < invoice.journal.len() implies !((
        #[trigger] invoice.journal[i]).to_status is FullySettled) by {
            assert(after.journal[i] == invoice.journal[i]);
        }
        assert(!(invoice.status is FullySettled)) by {
            if invoice.journal.len() > 0 {
                assert(!(invoice.journal[invoice.journal.len() - 1].to_status is FullySettled));
            }
        }
        assert(!(after.status is FullySettled)) by {
            if after.journal.len() > 0 {
                assert(!(after.journal[after.journal.len() - 1].to_status is FullySettled));
            }
        }
    }
}

/// Total redemption never exceeds a partial payment, without any condition on the calls: in
/// every state of the token, what has been redeemed since its payment of an invoice that is
/// partially settled, or that was never settled in full, is part of its settlement.
pub proof fn law_partial_settlement_is_never_exceeded(calls: Seq<Occasion>, id: Seq<u8>)
    ensures
        ({
            let invoice = after_calls(calls, calls.len()).invoices[id];
            invoice.dust is Some && (invoice.status is PartiallySettled || never_settled_in_full(
                invoice.journal,
            )) ==> 0 <= redeemed_since_payment(calls, calls.len(), id) <= invoice.settlement
        }),
{
    let property = |id: Seq<u8>, invoice: InvoiceView| partial_payment_holds(invoice);
    let any = |invoice: InvoiceView, call: InvoiceCall| true;
    lemma_total_of_nothing(InvoiceView::blank().balances);
    assert(kept_by(property, any)) by {
        assert forall|id: Seq<u8>, invoice: InvoiceView, s: Setting, call: InvoiceCall|
            #[trigger] property(id, invoice) && any(invoice, call) implies property(
            id,
            #[trigger] invoice_step(invoice, s, call),
        ) by {
            lemma_partial_payment_goes_on_to_hold(invoice, s, call);
        }
    }
    assert(kept_by_creation(property)) by {
        assert forall|id: Seq<u8>, invoice: InvoiceView, meta: InvoiceMeta<Seq<u8>>|
            #[trigger] property(id, invoice) && invoice.meta is None && valid_meta(
                meta,
            ) implies property(id, #[trigger] created_invoice(invoice, meta)) by {
            lemma_creation_is_sound(invoice, meta);
        }
    }
    lemma_every_state(property, any, calls, calls.len());
    assert(property(id, after_calls(calls, calls.len()).invoices[id]));
    law_dust_is_what_is_not_redeemed(calls, calls.len(), id);
}

/// After full settlement a holder may redeem the entire balance: a redemption that is
/// authorized and allowed while the lifecycle is not paused goes through for any part of
/// it.
pub proof fn law_full_settlement_redeems_the_balance(
    invoice: InvoiceView,
    s: Setting,
    holder: Address,
    amount: i128,
)
    requires
        invoice.status is FullySettled,
    ensures
        redemption_cap(invoice, holder) == invoice.balance(holder),
        sound(invoice) && 0 <= amount <= invoice.balance(holder) && !s.paused
            && s.replies.authorized == Some(true) && s.replies.transfer == Some(
            TransferDecision::Allow,
        ) ==> invoice_verdict(invoice, s, InvoiceCall::Redeem { from: holder, amount }) is Ok,
{
    if sound(invoice) {
        law_balance_is_part_of_supply(invoice, holder);
    }
}

/// During partial settlement a redemption is at most what is left of the settlement, and
/// at most the claim of the holder.
pub proof fn law_one_redemption_is_part_of_settlement(
    invoice: InvoiceView,
    s: Setting,
    from: Address,
    amount: i128,
)
    requires
        sound(invoice),
        invoice.status is PartiallySettled,
        invoice_verdict(invoice, s, InvoiceCall::Redeem { from, amount }) is Ok,
    ensures
        0 <= amount <= invoice.dust->0 <= invoice.settlement,
        amount <= partial_claim(invoice, from),
{
}

/// When the settlement is the supply, the claim of a holder is exactly the balance, as long
/// as the product of both is within 128 bits; and so is what the holder may redeem, while
/// nothing has been redeemed.
pub proof fn law_equal_settlement_and_supply(invoice: InvoiceView, holder: Address)
    requires
        sound(invoice),
        invoice.settlement == invoice.supply,
        invoice.entitlement(holder) is None,
        invoice.balance(holder) * invoice.settlement <= u128::MAX,
    ensures
        partial_claim(invoice, holder) == invoice.balance(holder),
        redeemable_state(invoice.status) && invoice.dust == Some(invoice.settlement)
            ==> redemption_cap(invoice, holder) == invoice.balance(holder),
{
    law_balance_is_part_of_supply(invoice, holder);
    let balance = invoice.balance(holder) as int;
    let supply = invoice.supply as int;
    if supply > 0 {
        assert(balance * supply / supply == balance) by (nonlinear_arith)
            requires
                supply > 0,
        ;
    }
}

// ---- Transfers during partial settlement ----

/// A transfer during partial settlement, direct or delegated, fixes what the sender may
/// redeem at no more than the share of the balance before the transfer, and never at more
/// than an earlier transfer did.
pub proof fn law_transfer_caps_the_sender(
    invoice: InvoiceView,
    s: Setting,
    spender: Address,
    from: Address,
    to: Address,
    amount: i128,
    call: InvoiceCall,
)
    requires
        fixes_entitlement(invoice),
        call == (InvoiceCall::Transfer { from, to, amount }) || call == (
        InvoiceCall::TransferFrom { spender, from, to, amount }),
        invoice_verdict(invoice, s, call) is Ok,
    ensures
        ({
            let after = invoice_step(invoice, s, call);
            let worth = signed(share(invoice.balance(from), invoice.settlement, invoice.supply));
            &&& after.status is PartiallySettled
            &&& after.entitlement(from) is Some
            &&& after.entitlement(from)->0 <= worth
            &&& invoice.entitlement(from) matches Some(existing) ==> after.entitlement(from)->0
                <= existing
            &&& redemption_cap(after, from) <= after.entitlement(from)->0
            &&& redemption_cap(after, from) <= after.balance(from)
        }),
{
}

/// A transfer before settlement fixes nothing, and no transfer touches the entitlement of
/// anyone but the sender.
pub proof fn law_transfer_fixes_only_the_sender(
    invoice: InvoiceView,
    from: Address,
    to: Address,
    amount: i128,
    other: Address,
)
    ensures
        other != from || !(invoice.status is PartiallySettled) ==> transferred(
            invoice,
            from,
            to,
            amount,
        ).entitlement(other) == invoice.entitlement(other),
{
}

/// What a call redeems of an invoice for a holder.
pub open spec fn redeemed_for(token: TokenView, o: Occasion, id: Seq<u8>, holder: Address) -> int {
    match o.call {
        TokenCall::OnInvoice {
            id: named,
            call: InvoiceCall::Redeem { from, amount },
        } => if named == id && from == holder && token_verdict(token, o) is Ok {
            amount as int
        } else {
            0
        },
        _ => 0,
    }
}

/// What the calls from `earlier` to `later` redeem of an invoice for a holder.
pub open spec fn redeemed_between(
    calls: Seq<Occasion>,
    earlier: nat,
    later: nat,
    id: Seq<u8>,
    holder: Address,
) -> int
    decreases later,
{
    if later <= earlier {
        0
    } else {
        let last = (later - 1) as nat;
        redeemed_between(calls, earlier, last, id, holder) + redeemed_for(
            after_calls(calls, last),
            calls[last as int],
            id,
            holder,
        )
    }
}

/// As long as an invoice is partially settled, an entitlement stays on record, and is less
/// by at least what its holder redeems.
proof fn lemma_entitlement_is_used(
    invoice: InvoiceView,
    s: Setting,
    call: InvoiceCall,
    holder: Address,
)
    requires
        invoice.status is PartiallySettled,
        invoice.entitlement(holder) is Some,
        invoice_step(invoice, s, call).status is PartiallySettled,
    ensures
        ({
            let after = invoice_step(invoice, s, call);
            let amount = match call {
                InvoiceCall::Redeem { from, amount } => if from == holder && invoice_verdict(
                    invoice,
                    s,
                    call,
                ) is Ok {
                    amount as int
                } else {
                    0
                },
                _ => 0,
            };
            &&& after.entitlement(holder) is Some
            &&& after.entitlement(holder)->0 + amount <= invoice.entitlement(holder)->0
        }),
{
}

/// All that a holder redeems during partial settlement, from the time that an entitlement
/// is fixed, is at most that entitlement: what has been redeemed and what is left of it
/// are together no more than what was fixed. Used up, it leaves nothing to redeem.
pub proof fn law_sender_redeems_at_most_the_entitlement(
    calls: Seq<Occasion>,
    earlier: nat,
    later: nat,
    id: Seq<u8>,
    holder: Address,
)
    requires
        earlier <= later <= calls.len(),
        after_calls(calls, earlier).invoices[id].status is PartiallySettled,
        after_calls(calls, earlier).invoices[id].entitlement(holder) is Some,
        after_calls(calls, later).invoices[id].status is PartiallySettled,
    ensures
        ({
            let fixed = after_calls(calls, earlier).invoices[id].entitlement(holder)->0;
            let left = after_calls(calls, later).invoices[id].entitlement(holder);
            &&& left is Some
            &&& 0 <= left->0
            &&& redeemed_between(calls, earlier, later, id, holder) + left->0 <= fixed
            &&& left->0 == 0 ==> redemption_cap(after_calls(calls, later).invoices[id], holder)
                <= 0
        }),
    decreases later,
{
    lemma_always_countable(calls, later, id);
    let now = after_calls(calls, later).invoices[id];
    if earlier < later {
        let last = (later - 1) as nat;
        law_journal_is_append_only(calls, earlier, last, id);
        law_journal_is_append_only(calls, last, later, id);
        let before = after_calls(calls, last);
        assert(before.invoices[id].status is PartiallySettled);
        law_sender_redeems_at_most_the_entitlement(calls, earlier, last, id, holder);
        let o = calls[last as int];
        match o.call {
            TokenCall::OnInvoice { id: named, call } => {
                let s = setting(before, o.ledger, o.replies);
                assert(after_calls(calls, later).invoices[named] == invoice_step(
                    before.invoices[named],
                    s,
                    call,
                ));
                if named == id {
                    lemma_entitlement_is_used(before.invoices[id], s, call, holder);
                }
            },
            TokenCall::BatchSettle { settlements } => {
                lemma_batch_pays_once(
                    before,
                    o.ledger,
                    settlements,
                    batch_size(settlements.len()),
                    id,
                );
            },
            _ => {},
        }
    }
    assert(now.entitlement(holder) is Some);
    assert(held(now.entitlements, holder) >= 0);
}

} // verus!
