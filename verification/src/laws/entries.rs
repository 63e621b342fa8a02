//! What a call writes to the ledger.

use crate::effect::{store, Effect};
use crate::history::{
    invoice_after, invoice_effects, invoice_verdict, setting, token_effects, token_step,
    token_verdict, InvoiceCall, Occasion, Setting, TokenCall,
};
use crate::invoice::InvoiceView;
use crate::redeem::{closes, destroyed, paid_out, redeem_effects, with_burn};
use crate::settle::{batch_size, batch_state};
use crate::token::TokenView;
use crate::transfer::{fee_on, fee_recipient, fixes_entitlement, with_transfer};
use crate::types::{Address, DataKey, Ledger};
use vstd::prelude::*;

verus! {

/// Both states have the same entry under the key.
pub open spec fn same_entry(a: TokenView, b: TokenView, key: DataKey<Seq<u8>>) -> bool {
    match key {
        DataKey::InvoiceMeta(id) => a.invoices[id].meta == b.invoices[id].meta,
        DataKey::Balance(holder, id) => a.invoices[id].balance(holder) == b.invoices[id].balance(
            holder,
        ),
        DataKey::Allowance(from, spender, id) => a.invoices[id].allowance(from, spender)
            == b.invoices[id].allowance(from, spender),
        DataKey::TotalSupply(id) => a.invoices[id].supply == b.invoices[id].supply,
        DataKey::InvoiceStatus(id) => a.invoices[id].status == b.invoices[id].status,
        DataKey::SettlementAmount(id) => a.invoices[id].settlement == b.invoices[id].settlement,
        DataKey::Journal(id) => a.invoices[id].journal == b.invoices[id].journal,
        DataKey::InvoicesList => a.invoices_list == b.invoices_list,
        DataKey::HolderList => true,
        DataKey::LifecyclePaused => a.paused == b.paused,
        DataKey::FeeRecipientRole => a.fee_recipient_role == b.fee_recipient_role,
        DataKey::FeeRecipientExempt => a.fee_recipient_exempt == b.fee_recipient_exempt,
        DataKey::SettledEntitlement(id, holder) => a.invoices[id].entitlement(holder)
            == b.invoices[id].entitlement(holder),
        DataKey::RedemptionDust(id) => a.invoices[id].dust == b.invoices[id].dust,
    }
}

/// The effect writes the entry under the key.
pub open spec fn writes(effect: Effect<Seq<u8>>, key: DataKey<Seq<u8>>) -> bool {
    effect matches Effect::Store { key: written, .. } && written == key
}

/// Among the effects, one writes the entry under the key.
pub open spec fn stored(effects: Seq<Effect<Seq<u8>>>, key: DataKey<Seq<u8>>) -> bool {
    exists|i: int| 0 <= i < effects.len() && writes(#[trigger] effects[i], key)
}

/// Among effects with one more, an entry is written if it was before, or by the last one.
pub broadcast proof fn lemma_stored_push(
    effects: Seq<Effect<Seq<u8>>>,
    effect: Effect<Seq<u8>>,
    key: DataKey<Seq<u8>>,
)
    ensures
        #[trigger] stored(effects.push(effect), key) == (stored(effects, key) || writes(
            effect,
            key,
        )),
{
    let after = effects.push(effect);
    if stored(effects, key) {
        let i = choose|i: int| 0 <= i < effects.len() && writes(#[trigger] effects[i], key);
        assert(writes(after[i], key));
    }
    if writes(effect, key) {
        assert(writes(after[effects.len() as int], key));
    }
    if stored(after, key) {
        let i = choose|i: int| 0 <= i < after.len() && writes(#[trigger] after[i], key);
        if i < effects.len() {
            assert(writes(effects[i], key));
        }
    }
}

proof fn lemma_stored_transfer(
    effects: Seq<Effect<Seq<u8>>>,
    invoice: InvoiceView,
    exempt: bool,
    id: Seq<u8>,
    from: Address,
    to: Address,
    amount: i128,
    key: DataKey<Seq<u8>>,
)
    ensures
        stored(with_transfer(effects, invoice, exempt, id, from, to, amount), key) == {
            ||| stored(effects, key)
            ||| fixes_entitlement(invoice) && key == DataKey::SettledEntitlement(id, from)
            ||| key == DataKey::Balance(from, id)
            ||| key == DataKey::Balance(to, id)
            ||| fee_on(invoice, amount) > 0 && key == DataKey::Balance(fee_recipient(invoice), id)
        },
{
    broadcast use lemma_stored_push;

}

proof fn lemma_stored_burn(
    effects: Seq<Effect<Seq<u8>>>,
    invoice: InvoiceView,
    id: Seq<u8>,
    from: Address,
    amount: i128,
    key: DataKey<Seq<u8>>,
)
    ensures
        stored(with_burn(effects, invoice, id, from, amount), key) == {
            ||| stored(effects, key)
            ||| key == DataKey::Balance(from, id)
            ||| key == DataKey::TotalSupply(id)
            ||| closes(destroyed(invoice, from, amount)) && (key == DataKey::Journal(id) || key
                == DataKey::InvoiceStatus(id))
        },
{
    broadcast use lemma_stored_push;

}

proof fn lemma_stored_redemption(
    invoice: InvoiceView,
    id: Seq<u8>,
    from: Address,
    amount: i128,
    key: DataKey<Seq<u8>>,
)
    ensures
        stored(redeem_effects(invoice, id, from, amount), key) == {
            ||| key == DataKey::Balance(from, id)
            ||| key == DataKey::TotalSupply(id)
            ||| invoice.entitlement(from) is Some && key == DataKey::SettledEntitlement(id, from)
            ||| invoice.dust is Some && key == DataKey::RedemptionDust(id)
            ||| closes(paid_out(invoice, from, amount)) && (key == DataKey::Journal(id) || key
                == DataKey::InvoiceStatus(id))
        },
{
    broadcast use lemma_stored_push;

}

proof fn lemma_call_on_invoice_writes_what_it_changes(
    token: TokenView,
    s: Setting,
    id: Seq<u8>,
    call: InvoiceCall,
    key: DataKey<Seq<u8>>,
)
    requires
        invoice_verdict(token.invoices[id], s, call) is Ok,
        !stored(invoice_effects(token.invoices[id], s, id, call), key),
    ensures
        same_entry(
            token,
            token.with_invoice(id, invoice_after(token.invoices[id], s, call)),
            key,
        ),
{
    let invoice = token.invoices[id];
    match call {
        InvoiceCall::Transfer { from, to, amount } => {
            lemma_stored_transfer(
                seq![Effect::ExtendInstance],
                invoice,
                s.exempt,
                id,
                from,
                to,
                amount,
                key,
            );
        },
        InvoiceCall::TransferFrom { spender, from, to, amount } => {
            lemma_stored_transfer(
                seq![store(DataKey::Allowance(from, spender, id), false)],
                invoice,
                s.exempt,
                id,
                from,
                to,
                amount,
                key,
            );
            lemma_stored_push(
                Seq::empty(),
                store(DataKey::Allowance(from, spender, id), false),
                key,
            );
        },
        InvoiceCall::Burn { from, amount } => {
            lemma_stored_burn(Seq::empty(), invoice, id, from, amount, key);
        },
        InvoiceCall::BurnFrom { spender, from, amount } => {
            lemma_stored_burn(
                seq![store(DataKey::Allowance(from, spender, id), false)],
                invoice,
                id,
                from,
                amount,
                key,
            );
            lemma_stored_push(
                Seq::empty(),
                store(DataKey::Allowance(from, spender, id), false),
                key,
            );
        },
        InvoiceCall::Redeem { from, amount } => {
            lemma_stored_redemption(invoice, id, from, amount, key);
        },
        _ => {
            lemma_simple_call_writes_what_it_changes(token, s, id, call, key);
        },
    }
}

proof fn lemma_simple_call_writes_what_it_changes(
    token: TokenView,
    s: Setting,
    id: Seq<u8>,
    call: InvoiceCall,
    key: DataKey<Seq<u8>>,
)
    requires
        invoice_verdict(token.invoices[id], s, call) is Ok,
        !stored(invoice_effects(token.invoices[id], s, id, call), key),
        match call {
            InvoiceCall::Transfer { .. } => false,
            InvoiceCall::TransferFrom { .. } => false,
            InvoiceCall::Burn { .. } => false,
            InvoiceCall::BurnFrom { .. } => false,
            InvoiceCall::Redeem { .. } => false,
            _ => true,
        },
    ensures
        same_entry(
            token,
            token.with_invoice(id, invoice_after(token.invoices[id], s, call)),
            key,
        ),
{
    broadcast use lemma_stored_push;

}

proof fn lemma_batch_writes_what_it_changes(
    token: TokenView,
    ledger: Ledger,
    settlements: Seq<(Seq<u8>, i128)>,
    count: nat,
    key: DataKey<Seq<u8>>,
)
    requires
        !stored(batch_state(token, ledger, settlements, count).effects, key),
    ensures
        same_entry(token, batch_state(token, ledger, settlements, count).token, key),
    decreases count,
{
    broadcast use lemma_stored_push;

    if count > 0 {
        lemma_batch_writes_what_it_changes(token, ledger, settlements, (count - 1) as nat, key);
    }
}

/// An entry that a call does not write is the same as before: what a call changes of the
/// token, it writes to the ledger.
pub proof fn law_call_writes_what_it_changes(
    token: TokenView,
    o: Occasion,
    key: DataKey<Seq<u8>>,
)
    requires
        token_verdict(token, o) is Ok,
        !stored(token_effects(token, o), key),
    ensures
        same_entry(token, token_step(token, o), key),
{
    broadcast use lemma_stored_push;

    match o.call {
        TokenCall::OnInvoice { id, call } => {
            lemma_call_on_invoice_writes_what_it_changes(
                token,
                setting(token, o.ledger, o.replies),
                id,
                call,
                key,
            );
        },
        TokenCall::BatchSettle { settlements } => {
            lemma_batch_writes_what_it_changes(
                token,
                o.ledger,
                settlements,
                batch_size(settlements.len()),
                key,
            );
        },
        _ => {},
    }
}

} // verus!
