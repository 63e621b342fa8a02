//! Reading the token.

use crate::amount::{days_to_maturity, discount_fits, discounted, discounted_value};
use crate::effect::{Effect, EffectLog};
use crate::ids::IdList;
use crate::invoice::{has_meta, InvoiceView};
use crate::step::{admin_authorizes, require_admin, verdict_of, InTurn, Replies, Stop, Verdict};
use crate::text::ByteString;
use crate::token::InvoiceToken;
use crate::types::{
    Address, AllowanceValue, InvoiceMeta, InvoiceStatus, JournalEntry, Ledger,
};
use vstd::prelude::*;

verus! {

/// Up to `limit` ids from `start` on, and never more than fifty.
pub open spec fn page(list: Seq<Seq<u8>>, start: u32, limit: u32) -> Seq<Seq<u8>> {
    let size: int = if limit > 50 {
        50
    } else {
        limit as int
    };
    if start >= list.len() {
        Seq::empty()
    } else if start + size < list.len() {
        list.subrange(start as int, start + size)
    } else {
        list.subrange(start as int, list.len() as int)
    }
}

/// What of an allowance can be used: nothing once it has expired.
pub open spec fn usable(allowance: AllowanceValue, ledger: Ledger) -> i128 {
    if allowance.expiration_ledger < ledger.sequence {
        0
    } else {
        allowance.amount
    }
}

/// Whether any settlement is on record.
pub open spec fn settlement_begun(status: InvoiceStatus) -> bool {
    status is PartiallySettled || status is FullySettled || status is Redeemed
}

/// Whether the present value of an invoice can be told.
pub open spec fn present_value_verdict(invoice: InvoiceView, ledger: Ledger) -> Verdict {
    let meta = invoice.meta->0;
    has_meta(invoice).and_next(
        discount_fits(
            meta.face_value_usd,
            meta.discount_rate_bps,
            days_to_maturity(meta.due_date, ledger.timestamp),
        ),
    )
}

/// The face value of an invoice, discounted from its due date to now.
pub open spec fn value_at(meta: InvoiceMeta<Seq<u8>>, timestamp: u64) -> int {
    discounted(
        meta.face_value_usd,
        meta.discount_rate_bps,
        days_to_maturity(meta.due_date, timestamp),
    )
}

impl InvoiceToken {
    /// What reading does to the ledger: each reading call keeps the contract instance
    /// alive, apart from that for the version.
    pub fn on_read() -> (log: EffectLog)
        ensures
            log@ == seq![Effect::<Seq<u8>>::ExtendInstance],
    {
        let mut log = EffectLog::new();
        log.push(Effect::ExtendInstance);
        log
    }

    /// The fee recipient role of the contract, if set.
    pub fn get_fee_recipient_role(&self) -> (role: Option<Address>)
        ensures
            role == self@.fee_recipient_role,
    {
        self.fee_recipient_role
    }

    /// Whether transfers skip the compliance check of the fee recipient.
    pub fn is_fee_recipient_exempt(&self) -> (exempt: bool)
        ensures
            exempt == self@.fee_recipient_exempt,
    {
        self.fee_recipient_exempt
    }

    /// Whether settlement and redemption are blocked.
    pub fn lifecycle_paused(&self) -> (paused: bool)
        ensures
            paused == self@.paused,
    {
        self.paused
    }

    /// The ids of created invoices, page by page: at most fifty from `start` on.
    pub fn list_invoices(&self, env: &soroban_sdk::Env, start: u32, limit: u32) -> (ids: IdList)
        ensures
            ids@ == page(self@.invoices_list, start, limit),
    {
        let list = &self.invoices_list;
        let total: u32 = list.len();
        let mut ids = IdList::new(env);
        if start >= total {
            return ids;
        }
        let size: u32 = if limit > 50 {
            50
        } else {
            limit
        };
        let end: u32 = if size < total - start {
            start + size
        } else {
            total
        };
        let mut i: u32 = start;
        assert(ids@ =~= list@.subrange(start as int, i as int));
        while i < end
            invariant
                start <= i <= end <= list@.len(),
                end <= u32::MAX,
                ids@ == list@.subrange(start as int, i as int),
            decreases end - i,
        {
            ids.push(&list.get(i));
            assert(ids@ =~= list@.subrange(start as int, i + 1));
            i = i + 1;
        }
        ids
    }

    /// The metadata of an invoice.
    pub fn get_meta(&self, invoice_id: &ByteString) -> (result: Result<InvoiceMeta, Stop>)
        ensures
            verdict_of(result) == has_meta(self@.invoices[invoice_id@]),
            result matches Ok(meta) ==> Some(meta@) == self@.invoices[invoice_id@].meta,
    {
        match self.invoices.get(invoice_id) {
            Some(invoice) => {
                let meta = invoice.require_meta()?;
                Ok(meta.copy())
            },
            None => Err(Stop::MissingInvoice),
        }
    }

    /// The name of the token.
    pub fn name() -> (name: &'static str)
        ensures
            name@ == "Veritoken Invoice"@,
    {
        "Veritoken Invoice"
    }

    /// The symbol of the token.
    pub fn symbol() -> (symbol: &'static str)
        ensures
            symbol@ == "VTINV"@,
    {
        "VTINV"
    }

    /// How many decimals an amount has: one unit of the token is one US dollar.
    pub fn decimals() -> (decimals: u32)
        ensures
            decimals == 7,
    {
        7
    }

    /// The version of the contract.
    pub fn version() -> (version: &'static str)
        ensures
            version@ == "0.1.0"@,
    {
        "0.1.0"
    }

    /// The lifecycle state of an invoice.
    pub fn invoice_status(&self, invoice_id: &ByteString) -> (status: InvoiceStatus)
        ensures
            status == self@.invoices[invoice_id@].status,
    {
        match self.invoices.get(invoice_id) {
            Some(invoice) => invoice.status,
            None => InvoiceStatus::Created,
        }
    }

    /// All recorded transitions of an invoice.
    pub fn get_journal(&self, invoice_id: &ByteString) -> (journal: Vec<JournalEntry>)
        ensures
            journal@ == self@.invoices[invoice_id@].journal,
    {
        match self.invoices.get(invoice_id) {
            Some(invoice) => {
                let journal = invoice.journal.clone();
                assert(journal@ =~= invoice.journal@);
                journal
            },
            None => Vec::new(),
        }
    }

    /// The settlement on record for an invoice, or nothing.
    pub fn settlement_amount(&self, invoice_id: &ByteString) -> (amount: i128)
        ensures
            amount == self@.invoices[invoice_id@].settlement,
    {
        match self.invoices.get(invoice_id) {
            Some(invoice) => invoice.settlement,
            None => 0,
        }
    }

    /// The part of the settlement of an invoice that has not been redeemed. For the
    /// administrator.
    pub fn collect_redemption_dust(&self, replies: &Replies, invoice_id: &ByteString) -> (result:
        Result<i128, Stop>)
        ensures
            verdict_of(result) == admin_authorizes(*replies),
            result matches Ok(amount) ==> amount == match self@.invoices[invoice_id@].dust {
                Some(dust) => dust,
                None => 0,
            },
    {
        require_admin(replies)?;
        match self.invoices.get(invoice_id) {
            Some(invoice) => match invoice.dust {
                Some(dust) => Ok(dust),
                None => Ok(0),
            },
            None => Ok(0),
        }
    }

    /// How many tokens of an invoice a holder has.
    pub fn balance(&self, id: Address, invoice_id: &ByteString) -> (amount: i128)
        ensures
            amount == self@.invoices[invoice_id@].balance(id),
    {
        match self.invoices.get(invoice_id) {
            Some(invoice) => invoice.balance(id),
            None => 0,
        }
    }

    /// How much `spender` may move of the tokens of `from`: nothing once the allowance has
    /// expired.
    pub fn allowance(
        &self,
        ledger: &Ledger,
        from: Address,
        spender: Address,
        invoice_id: &ByteString,
    ) -> (amount: i128)
        ensures
            amount == usable(self@.invoices[invoice_id@].allowance(from, spender), *ledger),
    {
        let allowance = match self.invoices.get(invoice_id) {
            Some(invoice) => invoice.allowance(from, spender),
            None => AllowanceValue { amount: 0, expiration_ledger: 0 },
        };
        if allowance.expiration_ledger < ledger.sequence {
            0
        } else {
            allowance.amount
        }
    }

    /// How many tokens of an invoice are in circulation.
    pub fn total_supply(&self, invoice_id: &ByteString) -> (amount: i128)
        ensures
            amount == self@.invoices[invoice_id@].supply,
    {
        match self.invoices.get(invoice_id) {
            Some(invoice) => invoice.supply,
            None => 0,
        }
    }

    /// Whether any settlement of an invoice is on record.
    pub fn is_settled(&self, invoice_id: &ByteString) -> (yes: bool)
        ensures
            yes == settlement_begun(self@.invoices[invoice_id@].status),
    {
        match self.invoice_status(invoice_id) {
            InvoiceStatus::PartiallySettled
            | InvoiceStatus::FullySettled
            | InvoiceStatus::Redeemed => true,
            InvoiceStatus::Created | InvoiceStatus::Issued => false,
        }
    }

    /// The face value of an invoice, discounted from its due date to now, in stroops.
    pub fn present_value(&self, ledger: &Ledger, invoice_id: &ByteString) -> (result: Result<
        i128,
        Stop,
    >)
        ensures
            verdict_of(result) == present_value_verdict(self@.invoices[invoice_id@], *ledger),
            result matches Ok(value) ==> value == value_at(
                self@.invoices[invoice_id@].meta->0,
                ledger.timestamp,
            ),
    {
        match self.invoices.get(invoice_id) {
            Some(invoice) => {
                let meta = invoice.require_meta()?;
                discounted_value(meta, ledger.timestamp)
            },
            None => Err(Stop::MissingInvoice),
        }
    }
}

} // verus!
