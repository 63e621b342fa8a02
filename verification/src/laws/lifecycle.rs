//! The lifecycle of an invoice and its journal.

use crate::admin::created_invoice;
use crate::history::{after_calls, invoice_step, InvoiceCall, Occasion, Setting};
use crate::invoice::InvoiceView;
use crate::laws::every_state::{
    all_invoices, kept_by, kept_by_creation, lemma_ever_after, lemma_every_state, valid_meta,
};
use crate::types::{InvoiceMeta, InvoiceStatus, JournalEntry};
use vstd::prelude::*;

verus! {

/// The transitions that the lifecycle permits.
pub open spec fn permitted(from: InvoiceStatus, to: InvoiceStatus) -> bool {
    match to {
        InvoiceStatus::Created => false,
        InvoiceStatus::Issued => from is Created,
        InvoiceStatus::PartiallySettled => from is Created || from is Issued,
        InvoiceStatus::FullySettled => from is Created || from is Issued
            || from is PartiallySettled,
        InvoiceStatus::Redeemed => from is PartiallySettled || from is FullySettled,
    }
}

/// The journal tells the whole way from creation to the present state, in permitted
/// transitions; of an invoice that was never created there is none.
pub open spec fn journal_complete(invoice: InvoiceView) -> bool {
    let journal = invoice.journal;
    &&& invoice.meta is None ==> journal.len() == 0
    &&& journal.len() == 0 ==> invoice.status is Created
    &&& journal.len() > 0 ==> journal[0].from_status is Created && journal.last().to_status
        == invoice.status
    &&& forall|i: int|
        0 <= i < journal.len() ==> permitted(
            (#[trigger] journal[i]).from_status,
            journal[i].to_status,
        )
    &&& forall|i: int, j: int|
        0 <= i && j == i + 1 && j < journal.len() ==> (#[trigger] journal[i]).to_status == (
        #[trigger] journal[j]).from_status
}

/// A call on an invoice either leaves state and journal alone, or makes one permitted
/// transition and appends it to the journal, with the ledger in which it happened.
pub proof fn law_transition_is_permitted_and_recorded(
    invoice: InvoiceView,
    s: Setting,
    call: InvoiceCall,
)
    ensures
        ({
            let after = invoice_step(invoice, s, call);
            ||| after.status == invoice.status && after.journal == invoice.journal
            ||| permitted(invoice.status, after.status) && after.journal == invoice.journal.push(
                JournalEntry {
                    from_status: invoice.status,
                    to_status: after.status,
                    ledger: s.ledger.sequence,
                    timestamp: s.ledger.timestamp,
                },
            )
        }),
{
}

/// Only minting opens an invoice: a call that leads from `Created` to `Issued` is an issue of
/// at least one token, and the supply is greater by what it mints. An issue of nothing
/// leaves an invoice that has no tokens yet as it was, with its state and journal.
pub proof fn law_minting_opens_the_invoice(invoice: InvoiceView, s: Setting, call: InvoiceCall)
    ensures
        ({
            let after = invoice_step(invoice, s, call);
            &&& invoice.status is Created && after.status is Issued ==> {
                &&& call is Issue
                &&& call->Issue_amount > 0
                &&& after.supply == invoice.supply + call->Issue_amount
            }
            &&& call is Issue && call->Issue_amount <= 0 ==> after.status == invoice.status
                && after.journal == invoice.journal && after.supply == invoice.supply
        }),
{
}

/// A call on an invoice keeps its journal complete.
pub proof fn law_journal_stays_complete(invoice: InvoiceView, s: Setting, call: InvoiceCall)
    requires
        journal_complete(invoice),
    ensures
        journal_complete(invoice_step(invoice, s, call)),
{
    law_transition_is_permitted_and_recorded(invoice, s, call);
    let after = invoice_step(invoice, s, call);
    if after.journal != invoice.journal {
        assert(after.journal.drop_last() =~= invoice.journal);
    }
}

/// In every state of the token, the journal of every invoice is complete.
pub proof fn law_journal_is_always_complete(calls: Seq<Occasion>, id: Seq<u8>)
    ensures
        journal_complete(after_calls(calls, calls.len()).invoices[id]),
{
    lemma_journals_complete(calls, calls.len());
    let property = |id: Seq<u8>, invoice: InvoiceView| journal_complete(invoice);
    assert(property(id, after_calls(calls, calls.len()).invoices[id]));
}

proof fn lemma_journals_complete(calls: Seq<Occasion>, count: nat)
    requires
        count <= calls.len(),
    ensures
        all_invoices(
            after_calls(calls, count),
            |id: Seq<u8>, invoice: InvoiceView| journal_complete(invoice),
        ),
{
    let property = |id: Seq<u8>, invoice: InvoiceView| journal_complete(invoice);
    let any = |invoice: InvoiceView, call: InvoiceCall| true;
    assert(kept_by(property, any)) by {
        assert forall|id: Seq<u8>, invoice: InvoiceView, s: Setting, call: InvoiceCall|
            #[trigger] property(id, invoice) && any(invoice, call) implies property(
            id,
            #[trigger] invoice_step(invoice, s, call),
        ) by {
            law_journal_stays_complete(invoice, s, call);
        }
    }
    lemma_every_state(property, any, calls, count);
}

/// How far an invoice is on its way.
pub open spec fn stage(status: InvoiceStatus) -> nat {
    match status {
        InvoiceStatus::Created => 0,
        InvoiceStatus::Issued => 1,
        InvoiceStatus::PartiallySettled => 2,
        InvoiceStatus::FullySettled => 3,
        InvoiceStatus::Redeemed => 4,
    }
}

/// The invoice has at least this journal, and is at least at this stage.
pub open spec fn continues(invoice: InvoiceView, start: InvoiceView) -> bool {
    &&& journal_complete(invoice)
    &&& start.journal.is_prefix_of(invoice.journal)
    &&& stage(start.status) <= stage(invoice.status)
}

/// The journal is append-only, and an invoice never goes back to an earlier stage:
/// whatever calls are made between two states, the later journal begins with the
/// earlier one, and the later stage is not before the earlier one.
pub proof fn law_journal_is_append_only(
    calls: Seq<Occasion>,
    earlier: nat,
    later: nat,
    id: Seq<u8>,
)
    requires
        earlier <= later <= calls.len(),
    ensures
        ({
            let before = after_calls(calls, earlier).invoices[id];
            let after = after_calls(calls, later).invoices[id];
            &&& before.journal.is_prefix_of(after.journal)
            &&& stage(before.status) <= stage(after.status)
        }),
{
    lemma_journals_complete(calls, earlier);
    let complete = |id: Seq<u8>, invoice: InvoiceView| journal_complete(invoice);
    let start = after_calls(calls, earlier);
    let property = |other: Seq<u8>, invoice: InvoiceView| continues(invoice, start.invoices[other]);
    let any = |invoice: InvoiceView, call: InvoiceCall| true;
    assert forall|other: Seq<u8>| property(other, #[trigger] start.invoices[other]) by {
        assert(complete(other, start.invoices[other]));
    }
    assert(kept_by(property, any)) by {
        assert forall|other: Seq<u8>, invoice: InvoiceView, s: Setting, call: InvoiceCall|
            #[trigger] property(other, invoice) && any(invoice, call) implies property(
            other,
            #[trigger] invoice_step(invoice, s, call),
        ) by {
            law_transition_is_permitted_and_recorded(invoice, s, call);
            law_journal_stays_complete(invoice, s, call);
            let first = start.invoices[other].journal;
            let after = invoice_step(invoice, s, call).journal;
            assert(first.is_prefix_of(after)) by {
                assert(after.subrange(0, first.len() as int) =~= invoice.journal.subrange(
                    0,
                    first.len() as int,
                ));
            }
        }
    }
    assert(kept_by_creation(property)) by {
        assert forall|other: Seq<u8>, invoice: InvoiceView, meta: InvoiceMeta<Seq<u8>>|
            #[trigger] property(other, invoice) && invoice.meta is None && valid_meta(
                meta,
            ) implies property(other, #[trigger] created_invoice(invoice, meta)) by {
            assert(created_invoice(invoice, meta).journal =~= invoice.journal);
        }
    }
    lemma_ever_after(property, any, calls, earlier, later);
    assert(property(id, after_calls(calls, later).invoices[id]));
}

} // verus!
