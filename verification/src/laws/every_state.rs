//! How a property of invoices carries over to every state of the token.

use crate::admin::{created_invoice, valid_webhook};
use crate::history::{
    after_calls, before_part, invoice_step, part_on, setting, token_step, InvoiceCall, Occasion,
    Setting, TokenCall,
};
use crate::invoice::InvoiceView;
use crate::settle::{batch_size, batch_state};
use crate::token::TokenView;
use crate::types::{InvoiceMeta, Ledger};
use vstd::prelude::*;

verus! {

/// Metadata as it is put on record.
pub open spec fn valid_meta(meta: InvoiceMeta<Seq<u8>>) -> bool {
    &&& valid_webhook(meta.notification_webhook)
    &&& meta.face_value_usd > 0
    &&& meta.transfer_fee_bps <= 10_000
}

/// All invoices of the token have the property.
pub open spec fn all_invoices(
    token: TokenView,
    property: spec_fn(Seq<u8>, InvoiceView) -> bool,
) -> bool {
    forall|id: Seq<u8>| property(id, #[trigger] token.invoices[id])
}

/// All calls on invoices that a call on the token makes on the way are of the given kind.
pub open spec fn all_parts(
    token: TokenView,
    o: Occasion,
    kind: spec_fn(InvoiceView, InvoiceCall) -> bool,
) -> bool {
    forall|index: nat|
        (#[trigger] part_on(o, index)) matches Some(part) ==> kind(
            before_part(token, o, index).invoices[part.0],
            part.1,
        )
}

/// The same, of all calls of a sequence.
pub open spec fn all_calls(
    calls: Seq<Occasion>,
    kind: spec_fn(InvoiceView, InvoiceCall) -> bool,
) -> bool {
    forall|i: int|
        0 <= i < calls.len() ==> all_parts(after_calls(calls, i as nat), #[trigger] calls[i], kind)
}

/// A call on an invoice of the given kind keeps the property.
pub open spec fn kept_by(
    property: spec_fn(Seq<u8>, InvoiceView) -> bool,
    kind: spec_fn(InvoiceView, InvoiceCall) -> bool,
) -> bool {
    forall|id: Seq<u8>, invoice: InvoiceView, s: Setting, call: InvoiceCall|
        #[trigger] property(id, invoice) && kind(invoice, call) ==> property(
            id,
            #[trigger] invoice_step(invoice, s, call),
        )
}

/// The creation of an invoice keeps the property.
pub open spec fn kept_by_creation(property: spec_fn(Seq<u8>, InvoiceView) -> bool) -> bool {
    forall|id: Seq<u8>, invoice: InvoiceView, meta: InvoiceMeta<Seq<u8>>|
        #[trigger] property(id, invoice) && invoice.meta is None && valid_meta(meta) ==> property(
            id,
            #[trigger] created_invoice(invoice, meta),
        )
}

/// A batch keeps the property.
proof fn lemma_batch_keeps(
    property: spec_fn(Seq<u8>, InvoiceView) -> bool,
    kind: spec_fn(InvoiceView, InvoiceCall) -> bool,
    token: TokenView,
    ledger: Ledger,
    settlements: Seq<(Seq<u8>, i128)>,
    count: nat,
)
    requires
        all_invoices(token, property),
        kept_by(property, kind),
        count <= settlements.len(),
        forall|index: nat|
            index < count ==> kind(
                (#[trigger] batch_state(
                    token,
                    ledger,
                    settlements,
                    index,
                )).token.invoices[settlements[index as int].0],
                InvoiceCall::BatchPayment { amount: settlements[index as int].1 },
            ),
    ensures
        all_invoices(batch_state(token, ledger, settlements, count).token, property),
        batch_state(token, ledger, settlements, count).token.paused == token.paused,
    decreases count,
{
    if count > 0 {
        let last = (count - 1) as nat;
        lemma_batch_keeps(property, kind, token, ledger, settlements, last);
        let before = batch_state(token, ledger, settlements, last).token;
        let after = batch_state(token, ledger, settlements, count).token;
        let (id, amount) = settlements[last as int];
        let call = InvoiceCall::BatchPayment { amount };
        let replies = arbitrary();
        let s = setting(before, ledger, replies);
        assert(property(id, before.invoices[id]));
        assert(kind(before.invoices[id], call));
        assert(property(id, invoice_step(before.invoices[id], s, call)));
        assert forall|other: Seq<u8>| property(other, #[trigger] after.invoices[other]) by {
            assert(property(other, before.invoices[other]));
            if other == id {
                assert(after.invoices[id] == invoice_step(before.invoices[id], s, call));
            } else {
                assert(after.invoices[other] == before.invoices[other]);
            }
        }
    }
}

/// A property of invoices that calls of a kind keep, and that creation keeps, is kept by
/// every call on the token that makes calls of this kind only.
pub proof fn lemma_call_keeps(
    property: spec_fn(Seq<u8>, InvoiceView) -> bool,
    kind: spec_fn(InvoiceView, InvoiceCall) -> bool,
    token: TokenView,
    o: Occasion,
)
    requires
        all_invoices(token, property),
        kept_by(property, kind),
        kept_by_creation(property),
        all_parts(token, o, kind),
    ensures
        all_invoices(token_step(token, o), property),
{
    let after = token_step(token, o);
    match o.call {
        TokenCall::OnInvoice { id, call } => {
            assert(part_on(o, 0) == Some((id, call)));
            let s = setting(token, o.ledger, o.replies);
            assert(property(id, token.invoices[id]));
            assert(property(id, invoice_step(token.invoices[id], s, call)));
            assert forall|other: Seq<u8>| property(other, #[trigger] after.invoices[other]) by {
                assert(property(other, token.invoices[other]));
                if other == id {
                    assert(after.invoices[id] == invoice_step(token.invoices[id], s, call));
                } else {
                    assert(after.invoices[other] == token.invoices[other]);
                }
            }
        },
        TokenCall::BatchSettle { settlements } => {
            let count = batch_size(settlements.len());
            assert forall|index: nat| index < count implies kind(
                (#[trigger] batch_state(
                    token,
                    o.ledger,
                    settlements,
                    index,
                )).token.invoices[settlements[index as int].0],
                InvoiceCall::BatchPayment { amount: settlements[index as int].1 },
            ) by {
                assert(part_on(o, index) is Some);
            }
            lemma_batch_keeps(property, kind, token, o.ledger, settlements, count);
        },
        TokenCall::Constructor { meta, .. } => {
            let id = meta.invoice_id;
            assert(property(id, token.invoices[id]));
            assert forall|other: Seq<u8>| property(other, #[trigger] after.invoices[other]) by {
                assert(property(other, token.invoices[other]));
                if other == id && after != token {
                    assert(property(id, created_invoice(token.invoices[id], meta)));
                }
            }
        },
        TokenCall::CreateInvoice { meta } => {
            let id = meta.invoice_id;
            assert(property(id, token.invoices[id]));
            assert forall|other: Seq<u8>| property(other, #[trigger] after.invoices[other]) by {
                assert(property(other, token.invoices[other]));
                if other == id && after != token {
                    assert(property(id, created_invoice(token.invoices[id], meta)));
                }
            }
        },
        _ => {},
    }
}

/// Such a property, once it holds, holds ever after.
pub proof fn lemma_ever_after(
    property: spec_fn(Seq<u8>, InvoiceView) -> bool,
    kind: spec_fn(InvoiceView, InvoiceCall) -> bool,
    calls: Seq<Occasion>,
    earlier: nat,
    later: nat,
)
    requires
        earlier <= later <= calls.len(),
        all_invoices(after_calls(calls, earlier), property),
        kept_by(property, kind),
        kept_by_creation(property),
        all_calls(calls, kind),
    ensures
        all_invoices(after_calls(calls, later), property),
    decreases later,
{
    if earlier < later {
        let last = (later - 1) as nat;
        lemma_ever_after(property, kind, calls, earlier, last);
        assert(all_parts(after_calls(calls, last), calls[last as int], kind));
        lemma_call_keeps(property, kind, after_calls(calls, last), calls[last as int]);
    }
}

/// Such a property holds in every state, if it holds of a blank record.
pub proof fn lemma_every_state(
    property: spec_fn(Seq<u8>, InvoiceView) -> bool,
    kind: spec_fn(InvoiceView, InvoiceCall) -> bool,
    calls: Seq<Occasion>,
    count: nat,
)
    requires
        count <= calls.len(),
        forall|id: Seq<u8>| #[trigger] property(id, InvoiceView::blank()),
        kept_by(property, kind),
        kept_by_creation(property),
        all_calls(calls, kind),
    ensures
        all_invoices(after_calls(calls, count), property),
{
    assert forall|id: Seq<u8>| property(
        id,
        #[trigger] after_calls(calls, 0).invoices[id],
    ) by {
        assert(property(id, InvoiceView::blank()));
    }
    lemma_ever_after(property, kind, calls, 0, count);
}

} // verus!
