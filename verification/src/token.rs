//! The state of the token contract.

use crate::ids::IdList;
use crate::invoice::{Invoice, InvoiceView};
use crate::table::Table;
use crate::text::ByteString;
use crate::types::Address;
use vstd::prelude::*;

verus! {

/// The token contract, as far as the ledger entries at hand tell.
pub struct InvoiceToken {
    pub invoices: Table<ByteString, Invoice>,
    /// The ids of the created invoices, in order of creation.
    pub invoices_list: IdList,
    /// While true, settlement and redemption are blocked.
    pub paused: bool,
    pub fee_recipient_role: Option<Address>,
    /// While true, a transfer does not check the fee recipient.
    pub fee_recipient_exempt: bool,
}

/// The mathematical content of an [`InvoiceToken`].
#[verifier::ext_equal]
pub struct TokenView {
    /// Every id has a record; that of an unknown id is blank.
    pub invoices: Map<Seq<u8>, InvoiceView>,
    pub invoices_list: Seq<Seq<u8>>,
    pub paused: bool,
    pub fee_recipient_role: Option<Address>,
    pub fee_recipient_exempt: bool,
}

/// The record under an id: blank where the table has none.
pub open spec fn record(invoices: Map<Seq<u8>, Invoice>, id: Seq<u8>) -> InvoiceView {
    if invoices.contains_key(id) {
        invoices[id]@
    } else {
        InvoiceView::blank()
    }
}

impl View for InvoiceToken {
    type V = TokenView;

    open spec fn view(&self) -> TokenView {
        TokenView {
            invoices: Map::total(|id: Seq<u8>| record(self.invoices@, id)),
            invoices_list: self.invoices_list@,
            paused: self.paused,
            fee_recipient_role: self.fee_recipient_role,
            fee_recipient_exempt: self.fee_recipient_exempt,
        }
    }
}

impl TokenView {
    /// The token contract before its first call.
    pub open spec fn empty() -> TokenView {
        TokenView {
            invoices: Map::total(|id: Seq<u8>| InvoiceView::blank()),
            invoices_list: Seq::empty(),
            paused: false,
            fee_recipient_role: None,
            fee_recipient_exempt: false,
        }
    }

    /// The token with another record under one id.
    pub open spec fn with_invoice(self, id: Seq<u8>, invoice: InvoiceView) -> TokenView {
        TokenView { invoices: self.invoices.insert(id, invoice), ..self }
    }
}

impl InvoiceToken {
    /// The token contract before its first call.
    pub fn new(env: &soroban_sdk::Env) -> (token: Self)
        ensures
            token@ == TokenView::empty(),
    {
        let token = InvoiceToken {
            invoices: Table::new(),
            invoices_list: IdList::new(env),
            paused: false,
            fee_recipient_role: None,
            fee_recipient_exempt: false,
        };
        assert(token@ =~= TokenView::empty());
        token
    }

    /// Takes the record of an invoice out, and leaves a blank one.
    pub(crate) fn take_invoice(&mut self, id: &ByteString) -> (invoice: Invoice)
        ensures
            invoice@ == old(self)@.invoices[id@],
            final(self)@ == old(self)@.with_invoice(id@, InvoiceView::blank()),
    {
        let invoice = match self.invoices.remove(id) {
            Some(invoice) => invoice,
            None => Invoice::blank(),
        };
        assert(self@ =~= old(self)@.with_invoice(id@, InvoiceView::blank()));
        invoice
    }

    /// Puts a record in.
    pub fn put_invoice(&mut self, id: &ByteString, invoice: Invoice)
        ensures
            final(self)@ == old(self)@.with_invoice(id@, invoice@),
    {
        self.invoices.insert(id.copy(), invoice);
        assert(self@ =~= old(self)@.with_invoice(id@, invoice@));
    }
}

} // verus!
