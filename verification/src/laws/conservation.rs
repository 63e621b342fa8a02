//! Tokens are conserved: the supply is the sum of the balances.

use crate::admin::created_invoice;
use crate::history::{
    after_calls, invoice_step, invoice_verdict, InvoiceCall, Occasion, Setting,
};
use crate::invoice::{held, InvoiceView};
use crate::laws::every_state::{kept_by, kept_by_creation, lemma_every_state, valid_meta};
use crate::redeem::burned;
use crate::supply::{lemma_total_insert, lemma_total_of_nothing, total};
use crate::transfer::{
    debited, fee_on, fee_recipient, paid, spent, transferred, transferred_balances,
};
use crate::types::{Address, InvoiceMeta};
use vstd::prelude::*;

verus! {

/// The supply is the sum of the balances; nobody has tokens of an invoice that was never
/// created.
pub open spec fn backed(invoice: InvoiceView) -> bool {
    &&& invoice.balances.dom().finite()
    &&& total(invoice.balances) == invoice.supply
    &&& invoice.meta is None ==> invoice.status is Created && forall|holder: Address|
        #[trigger] held(invoice.balances, holder) == 0
}

/// A transfer, with its fee, leaves the sum of the balances as it is.
pub proof fn law_transfer_conserves_tokens(
    invoice: InvoiceView,
    s: Setting,
    from: Address,
    to: Address,
    amount: i128,
)
    requires
        invoice.balances.dom().finite(),
        invoice_verdict(invoice, s, InvoiceCall::Transfer { from, to, amount }) is Ok,
    ensures
        transferred(invoice, from, to, amount).balances.dom().finite(),
        total(transferred(invoice, from, to, amount).balances) == total(invoice.balances),
        transferred(invoice, from, to, amount).supply == invoice.supply,
{
    lemma_movement_conserves(invoice, from, to, amount);
}

/// Where the balances stay in range, moving tokens leaves their sum as it is.
proof fn lemma_movement_conserves(invoice: InvoiceView, from: Address, to: Address, amount: i128)
    requires
        invoice.balances.dom().finite(),
        ({
            let fee = fee_on(invoice, amount);
            let after = paid(invoice.balances, from, to, amount, fee);
            let recipient = fee_recipient(invoice);
            &&& i128::MIN <= invoice.balance(from) - amount <= i128::MAX
            &&& i128::MIN <= held(debited(invoice.balances, from, amount as int), to) + amount
                - fee <= i128::MAX
            &&& fee > 0 ==> i128::MIN <= held(after, recipient) + fee <= i128::MAX
            &&& fee >= 0
        }),
    ensures
        transferred_balances(invoice, from, to, amount).dom().finite(),
        total(transferred_balances(invoice, from, to, amount)) == total(invoice.balances),
{
    let fee = fee_on(invoice, amount);
    let recipient = fee_recipient(invoice);
    let first = debited(invoice.balances, from, amount as int);
    let second = paid(invoice.balances, from, to, amount, fee);
    lemma_total_insert(invoice.balances, from, (held(invoice.balances, from) - amount) as i128);
    lemma_total_insert(first, to, (held(first, to) + (amount - fee)) as i128);
    if fee > 0 {
        lemma_total_insert(second, recipient, (held(second, recipient) + fee) as i128);
    }
}

/// Whatever call is made on an invoice, its supply stays the sum of its balances.
pub proof fn law_supply_stays_backed(invoice: InvoiceView, s: Setting, call: InvoiceCall)
    requires
        backed(invoice),
    ensures
        backed(invoice_step(invoice, s, call)),
{
    if invoice_verdict(invoice, s, call) is Ok {
        match call {
            InvoiceCall::Issue { to, amount } => {
                lemma_total_insert(
                    invoice.balances,
                    to,
                    (held(invoice.balances, to) + amount) as i128,
                );
            },
            InvoiceCall::Redeem { from, amount } => {
                lemma_total_insert(
                    invoice.balances,
                    from,
                    (held(invoice.balances, from) - amount) as i128,
                );
            },
            InvoiceCall::Burn { from, amount } => {
                lemma_burn_stays_backed(invoice, s, from, amount);
            },
            InvoiceCall::BurnFrom { spender, from, amount } => {
                lemma_burn_stays_backed(spent(invoice, from, spender, amount), s, from, amount);
            },
            InvoiceCall::Transfer { from, to, amount } => {
                lemma_movement_conserves(invoice, from, to, amount);
            },
            InvoiceCall::TransferFrom { spender, from, to, amount } => {
                lemma_movement_conserves(spent(invoice, from, spender, amount), from, to, amount);
            },
            _ => {},
        }
    }
}

proof fn lemma_burn_stays_backed(invoice: InvoiceView, s: Setting, from: Address, amount: i128)
    requires
        backed(invoice),
        0 <= amount <= invoice.balance(from),
        i128::MIN <= invoice.supply - amount <= i128::MAX,
    ensures
        backed(burned(invoice, s.ledger, from, amount)),
{
    lemma_total_insert(invoice.balances, from, (held(invoice.balances, from) - amount) as i128);
    if invoice.meta is None {
        assert(held(invoice.balances, from) == 0);
        let after = burned(invoice, s.ledger, from, amount);
        assert forall|holder: Address| #[trigger] held(after.balances, holder) == 0 by {
            assert(held(invoice.balances, holder) == 0);
        }
    }
}

/// The creation of an invoice leaves its supply the sum of its balances.
pub proof fn law_created_invoice_is_backed(invoice: InvoiceView, meta: InvoiceMeta<Seq<u8>>)
    requires
        backed(invoice),
        invoice.meta is None,
    ensures
        backed(created_invoice(invoice, meta)),
{
    lemma_total_of_nothing(invoice.balances);
}

/// In every state of the token, the supply of every invoice is the sum of its balances.
pub proof fn law_supply_is_always_backed(calls: Seq<Occasion>, id: Seq<u8>)
    ensures
        backed(after_calls(calls, calls.len()).invoices[id]),
{
    let property = |id: Seq<u8>, invoice: InvoiceView| backed(invoice);
    let any = |invoice: InvoiceView, call: InvoiceCall| true;
    assert(backed(InvoiceView::blank())) by {
        lemma_total_of_nothing(InvoiceView::blank().balances);
    }
    assert(kept_by(property, any)) by {
        assert forall|id: Seq<u8>, invoice: InvoiceView, s: Setting, call: InvoiceCall|
            #[trigger] property(id, invoice) && any(invoice, call) implies property(
            id,
            #[trigger] invoice_step(invoice, s, call),
        ) by {
            law_supply_stays_backed(invoice, s, call);
        }
    }
    assert(kept_by_creation(property)) by {
        assert forall|id: Seq<u8>, invoice: InvoiceView, meta: InvoiceMeta<Seq<u8>>|
            #[trigger] property(id, invoice) && invoice.meta is None && valid_meta(
                meta,
            ) implies property(id, #[trigger] created_invoice(invoice, meta)) by {
            law_created_invoice_is_backed(invoice, meta);
        }
    }
    lemma_every_state(property, any, calls, calls.len());
    assert(property(id, after_calls(calls, calls.len()).invoices[id]));
}

} // verus!
