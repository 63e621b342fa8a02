//! Fees, shares, and the soundness of every record.

use crate::admin::created_invoice;
use crate::amount::{charges_fee, fee_of, share};
use crate::history::{
    after_calls, invoice_step, invoice_verdict, InvoiceCall, Occasion, Setting,
};
use crate::invoice::{held, InvoiceView};
use crate::laws::conservation::{backed, law_created_invoice_is_backed, law_supply_stays_backed};
use crate::laws::every_state::{kept_by, kept_by_creation, lemma_every_state, valid_meta};
use crate::redeem::{burned, redemption_cap};
use crate::settle::unsettled;
use crate::supply::{lemma_part_of_total, lemma_total_of_nothing};
use crate::transfer::{debited, fee_on, fee_recipient, fixes_entitlement, paid, spent, transferred};
use crate::types::{Address, InvoiceMeta};
use vstd::prelude::*;

verus! {

/// The supply is the sum of the balances; nothing is negative; there are tokens only
/// between issuance and the last redemption; what is left of a partial settlement is part
/// of it; metadata on record is valid.
pub open spec fn sound(invoice: InvoiceView) -> bool {
    &&& backed(invoice)
    &&& invoice.meta matches Some(meta) ==> valid_meta(meta)
    &&& forall|holder: Address| #[trigger] held(invoice.balances, holder) >= 0
    &&& forall|holder: Address| #[trigger] held(invoice.entitlements, holder) >= 0
    &&& forall|from: Address, spender: Address|
        (#[trigger] invoice.allowance(from, spender)).amount >= 0
    &&& invoice.settlement >= 0
    &&& invoice.status is Created || invoice.status is Redeemed ==> invoice.supply == 0
    &&& unsettled(invoice.status) ==> invoice.dust is None
    &&& invoice.status is PartiallySettled ==> invoice.dust is Some && 0 <= invoice.dust->0
        <= invoice.settlement
}

/// The fee is the given basis points of the amount, rounded down.
pub proof fn law_fee_is_rounded_down(meta: InvoiceMeta<Seq<u8>>, amount: i128)
    requires
        amount >= 0,
        meta.transfer_fee_bps > 0,
        meta.fee_recipient is Some,
    ensures
        fee_of(meta, amount) * 10_000 <= amount * meta.transfer_fee_bps,
        amount * meta.transfer_fee_bps < (fee_of(meta, amount) + 1) * 10_000,
{
    assert(amount * meta.transfer_fee_bps >= 0) by (nonlinear_arith)
        requires
            amount >= 0,
    ;
}

/// Of a transfer under valid metadata, the fee is never more than the amount.
pub proof fn law_fee_is_part_of_amount(meta: InvoiceMeta<Seq<u8>>, amount: i128)
    requires
        amount >= 0,
        valid_meta(meta),
    ensures
        0 <= fee_of(meta, amount) <= amount,
{
    if charges_fee(meta) {
        law_fee_is_rounded_down(meta, amount);
        assert(amount * meta.transfer_fee_bps <= amount * 10_000) by (nonlinear_arith)
            requires
                amount >= 0,
                meta.transfer_fee_bps <= 10_000,
        ;
    }
}

/// No balance of a sound invoice is negative or exceeds the supply.
pub proof fn law_balance_is_part_of_supply(invoice: InvoiceView, holder: Address)
    requires
        sound(invoice),
    ensures
        0 <= invoice.balance(holder) <= invoice.supply,
{
    lemma_part_of_total(invoice.balances, holder);
}

/// The share of a balance in a sound invoice is at most the settlement.
pub proof fn law_share_is_part_of_settlement(invoice: InvoiceView, holder: Address)
    requires
        sound(invoice),
        invoice.settlement > 0,
        invoice.supply > 0,
    ensures
        0 <= share(invoice.balance(holder), invoice.settlement, invoice.supply)
            <= invoice.settlement,
{
    law_balance_is_part_of_supply(invoice, holder);
    let balance = invoice.balance(holder) as int;
    let settlement = invoice.settlement as int;
    let supply = invoice.supply as int;
    assert(0 <= balance * settlement / supply <= settlement) by (nonlinear_arith)
        requires
            0 <= balance <= supply,
            settlement > 0,
            supply > 0,
    ;
}

/// What may be redeemed of a sound invoice is never negative.
pub proof fn law_redemption_cap_is_not_negative(invoice: InvoiceView, holder: Address)
    requires
        sound(invoice),
    ensures
        redemption_cap(invoice, holder) >= 0,
{
    assert(held(invoice.balances, holder) >= 0);
    assert(held(invoice.entitlements, holder) >= 0);
    if invoice.settlement > 0 && invoice.supply > 0 {
        law_share_is_part_of_settlement(invoice, holder);
    }
}

proof fn lemma_burn_stays_sound(invoice: InvoiceView, s: Setting, from: Address, amount: i128)
    requires
        sound(invoice),
        0 <= amount <= invoice.balance(from),
        backed(burned(invoice, s.ledger, from, amount)),
    ensures
        sound(burned(invoice, s.ledger, from, amount)),
{
    law_balance_is_part_of_supply(invoice, from);
    let after = burned(invoice, s.ledger, from, amount);
    assert forall|holder: Address| #[trigger] held(after.balances, holder) >= 0 by {
        assert(held(invoice.balances, holder) >= 0);
    }
    assert forall|holder: Address| #[trigger] held(after.entitlements, holder) >= 0 by {
        assert(held(invoice.entitlements, holder) >= 0);
    }
    assert forall|f: Address, p: Address| (#[trigger] after.allowance(f, p)).amount >= 0 by {
        assert(invoice.allowance(f, p).amount >= 0);
    }
}

proof fn lemma_redeem_stays_sound(invoice: InvoiceView, s: Setting, from: Address, amount: i128)
    requires
        sound(invoice),
        amount >= 0,
        invoice_verdict(invoice, s, InvoiceCall::Redeem { from, amount }) is Ok,
    ensures
        sound(invoice_step(invoice, s, InvoiceCall::Redeem { from, amount })),
{
    let call = InvoiceCall::Redeem { from, amount };
    let after = invoice_step(invoice, s, call);
    law_supply_stays_backed(invoice, s, call);
    law_balance_is_part_of_supply(invoice, from);
    assert forall|holder: Address| #[trigger] held(after.balances, holder) >= 0 by {
        assert(held(invoice.balances, holder) >= 0);
    }
    assert forall|holder: Address| #[trigger] held(after.entitlements, holder) >= 0 by {
        assert(held(invoice.entitlements, holder) >= 0);
    }
    assert forall|f: Address, p: Address| (#[trigger] after.allowance(f, p)).amount >= 0 by {
        assert(invoice.allowance(f, p).amount >= 0);
    }
}

proof fn lemma_spending_stays_sound(
    invoice: InvoiceView,
    from: Address,
    spender: Address,
    amount: i128,
)
    requires
        sound(invoice),
        0 <= amount <= invoice.allowance(from, spender).amount,
    ensures
        sound(spent(invoice, from, spender, amount)),
{
    let after = spent(invoice, from, spender, amount);
    assert forall|f: Address, p: Address| (#[trigger] after.allowance(f, p)).amount >= 0 by {
        assert(invoice.allowance(f, p).amount >= 0);
    }
}

proof fn lemma_transfer_stays_sound(
    invoice: InvoiceView,
    from: Address,
    to: Address,
    amount: i128,
)
    requires
        sound(invoice),
        invoice.meta is Some,
        0 <= amount <= invoice.balance(from),
        !(invoice.status is Created || invoice.status is Redeemed),
        backed(transferred(invoice, from, to, amount)),
        ({
            let fee = fee_on(invoice, amount);
            let after = paid(invoice.balances, from, to, amount, fee);
            let recipient = fee_recipient(invoice);
            &&& held(debited(invoice.balances, from, amount as int), to) + amount - fee <= i128::MAX
            &&& fee > 0 ==> held(after, recipient) + fee <= i128::MAX
        }),
    ensures
        sound(transferred(invoice, from, to, amount)),
{
    let after = transferred(invoice, from, to, amount);
    let fee = fee_on(invoice, amount);
    law_fee_is_part_of_amount(invoice.meta->0, amount);
    let first = debited(invoice.balances, from, amount as int);
    let second = paid(invoice.balances, from, to, amount, fee);
    assert forall|holder: Address| #[trigger] held(first, holder) >= 0 by {
        assert(held(invoice.balances, holder) >= 0);
    }
    assert forall|holder: Address| #[trigger] held(second, holder) >= 0 by {
        assert(held(first, holder) >= 0);
        assert(held(first, to) >= 0);
    }
    assert forall|holder: Address| #[trigger] held(after.balances, holder) >= 0 by {
        assert(held(second, holder) >= 0);
        assert(held(second, fee_recipient(invoice)) >= 0);
    }
    assert forall|holder: Address| #[trigger] held(after.entitlements, holder) >= 0 by {
        assert(held(invoice.entitlements, holder) >= 0);
        assert(held(invoice.entitlements, from) >= 0);
        if fixes_entitlement(invoice) {
            law_share_is_part_of_settlement(invoice, from);
        }
    }
    assert forall|f: Address, p: Address| (#[trigger] after.allowance(f, p)).amount >= 0 by {
        assert(invoice.allowance(f, p).amount >= 0);
    }
}

/// Every call keeps an invoice sound.
pub proof fn law_invoice_stays_sound(invoice: InvoiceView, s: Setting, call: InvoiceCall)
    requires
        sound(invoice),
    ensures
        sound(invoice_step(invoice, s, call)),
{
    law_supply_stays_backed(invoice, s, call);
    let after = invoice_step(invoice, s, call);
    if invoice_verdict(invoice, s, call) is Ok {
        match call {
            InvoiceCall::Burn { from, amount } => {
                lemma_burn_stays_sound(invoice, s, from, amount);
            },
            InvoiceCall::BurnFrom { spender, from, amount } => {
                lemma_spending_stays_sound(invoice, from, spender, amount);
                lemma_burn_stays_sound(spent(invoice, from, spender, amount), s, from, amount);
            },
            InvoiceCall::Redeem { from, amount } => {
                lemma_redeem_stays_sound(invoice, s, from, amount);
            },
            InvoiceCall::Transfer { from, to, amount } => {
                lemma_transfer_stays_sound(invoice, from, to, amount);
            },
            InvoiceCall::TransferFrom { spender, from, to, amount } => {
                lemma_spending_stays_sound(invoice, from, spender, amount);
                lemma_transfer_stays_sound(
                    spent(invoice, from, spender, amount),
                    from,
                    to,
                    amount,
                );
            },
            InvoiceCall::Issue { to, amount } => {
                assert forall|holder: Address| #[trigger] held(after.balances, holder) >= 0 by {
                    assert(held(invoice.balances, holder) >= 0);
                    assert(held(invoice.balances, to) >= 0);
                }
                assert forall|f: Address, p: Address|
                    (#[trigger] after.allowance(f, p)).amount >= 0 by {
                    assert(invoice.allowance(f, p).amount >= 0);
                }
            },
            _ => {
                assert forall|f: Address, p: Address|
                    (#[trigger] after.allowance(f, p)).amount >= 0 by {
                    assert(invoice.allowance(f, p).amount >= 0);
                }
            },
        }
    }
}

/// In every state of the token, every invoice is sound.
pub proof fn law_invoices_are_always_sound(calls: Seq<Occasion>, id: Seq<u8>)
    ensures
        sound(after_calls(calls, calls.len()).invoices[id]),
{
    let property = |id: Seq<u8>, invoice: InvoiceView| sound(invoice);
    let any = |invoice: InvoiceView, call: InvoiceCall| true;
    lemma_total_of_nothing(InvoiceView::blank().balances);
    assert(kept_by(property, any)) by {
        assert forall|id: Seq<u8>, invoice: InvoiceView, s: Setting, call: InvoiceCall|
            #[trigger] property(id, invoice) && any(invoice, call) implies property(
            id,
            #[trigger] invoice_step(invoice, s, call),
        ) by {
            law_invoice_stays_sound(invoice, s, call);
        }
    }
    assert(kept_by_creation(property)) by {
        assert forall|id: Seq<u8>, invoice: InvoiceView, meta: InvoiceMeta<Seq<u8>>|
            #[trigger] property(id, invoice) && invoice.meta is None && valid_meta(
                meta,
            ) implies property(id, #[trigger] created_invoice(invoice, meta)) by {
            lemma_creation_is_sound(invoice, meta);
        }
    }
    lemma_every_state(property, any, calls, calls.len());
    assert(property(id, after_calls(calls, calls.len()).invoices[id]));
}

/// In every state of the token, there are no tokens of an invoice before they are issued, nor
/// once it is redeemed.
pub proof fn law_tokens_fit_state(calls: Seq<Occasion>, id: Seq<u8>, holder: Address)
    ensures
        ({
            let invoice = after_calls(calls, calls.len()).invoices[id];
            &&& invoice.status is Created || invoice.status is Redeemed ==> invoice.supply == 0
                && invoice.balance(holder) == 0
            &&& 0 <= invoice.balance(holder) <= invoice.supply
        }),
{
    law_invoices_are_always_sound(calls, id);
    law_balance_is_part_of_supply(after_calls(calls, calls.len()).invoices[id], holder);
}

/// The creation of an invoice leaves its record sound.
pub proof fn lemma_creation_is_sound(invoice: InvoiceView, meta: InvoiceMeta<Seq<u8>>)
    requires
        sound(invoice),
        invoice.meta is None,
        valid_meta(meta),
    ensures
        sound(created_invoice(invoice, meta)),
{
    law_created_invoice_is_backed(invoice, meta);
    let after = created_invoice(invoice, meta);
    assert forall|f: Address, p: Address| (#[trigger] after.allowance(f, p)).amount >= 0 by {
        assert(invoice.allowance(f, p).amount >= 0);
    }
}

} // verus!
