//! The record of one invoice.

use crate::effect::{store, Effect, EffectLog};
use crate::step::{verdict_of, Stop, Verdict};
use crate::table::Table;
use crate::text::ByteString;
use crate::types::{
    Address, AllowanceValue, DataKey, InvoiceMeta, InvoiceStatus, JournalEntry, Ledger,
};
use vstd::prelude::*;

verus! {

/// What the ledger keeps of one invoice. An entry that the ledger lacks reads as in
/// [`Invoice::blank`].
pub struct Invoice {
    pub meta: Option<InvoiceMeta>,
    pub status: InvoiceStatus,
    pub supply: i128,
    pub settlement: i128,
    /// The part of the settlement that has not been redeemed, once there is a settlement.
    pub dust: Option<i128>,
    pub journal: Vec<JournalEntry>,
    pub balances: Table<Address, i128>,
    /// What holders who transferred during partial settlement may still redeem.
    pub entitlements: Table<Address, i128>,
    /// By holder and spender.
    pub allowances: Table<(Address, Address), AllowanceValue>,
}

/// The mathematical content of an [`Invoice`].
#[verifier::ext_equal]
pub struct InvoiceView {
    pub meta: Option<InvoiceMeta<Seq<u8>>>,
    pub status: InvoiceStatus,
    pub supply: i128,
    pub settlement: i128,
    pub dust: Option<i128>,
    pub journal: Seq<JournalEntry>,
    pub balances: Map<Address, i128>,
    pub entitlements: Map<Address, i128>,
    pub allowances: Map<(Address, Address), AllowanceValue>,
}

/// The value of a holder in a map where an absent holder has nothing.
pub open spec fn held(amounts: Map<Address, i128>, holder: Address) -> i128 {
    if amounts.contains_key(holder) {
        amounts[holder]
    } else {
        0
    }
}

/// The allowance that was never given.
pub open spec fn no_allowance() -> AllowanceValue {
    AllowanceValue { amount: 0, expiration_ledger: 0 }
}

impl InvoiceView {
    /// An invoice of which the ledger keeps nothing.
    pub open spec fn blank() -> InvoiceView {
        InvoiceView {
            meta: None,
            status: InvoiceStatus::Created,
            supply: 0,
            settlement: 0,
            dust: None,
            journal: Seq::empty(),
            balances: Map::empty(),
            entitlements: Map::empty(),
            allowances: Map::empty(),
        }
    }

    pub open spec fn balance(self, holder: Address) -> i128 {
        held(self.balances, holder)
    }

    pub open spec fn entitlement(self, holder: Address) -> Option<i128> {
        if self.entitlements.contains_key(holder) {
            Some(self.entitlements[holder])
        } else {
            None
        }
    }

    pub open spec fn allowance(self, from: Address, spender: Address) -> AllowanceValue {
        if self.allowances.contains_key((from, spender)) {
            self.allowances[(from, spender)]
        } else {
            no_allowance()
        }
    }

    /// The invoice in the next state, with the transition on record.
    pub open spec fn moved_to(self, to: InvoiceStatus, ledger: Ledger) -> InvoiceView {
        InvoiceView {
            status: to,
            journal: self.journal.push(
                JournalEntry {
                    from_status: self.status,
                    to_status: to,
                    ledger: ledger.sequence,
                    timestamp: ledger.timestamp,
                },
            ),
            ..self
        }
    }
}

/// The metadata of the invoice is on record.
pub open spec fn has_meta(invoice: InvoiceView) -> Verdict {
    if invoice.meta is Some {
        Ok(())
    } else {
        Err(Stop::MissingInvoice)
    }
}

/// `effects`, followed by those of a transition.
pub open spec fn with_transition(effects: Seq<Effect<Seq<u8>>>, id: Seq<u8>) -> Seq<
    Effect<Seq<u8>>,
> {
    effects.push(store(DataKey::Journal(id), true)).push(store(DataKey::InvoiceStatus(id), true))
}

impl View for Invoice {
    type V = InvoiceView;

    open spec fn view(&self) -> InvoiceView {
        InvoiceView {
            meta: match self.meta {
                Some(meta) => Some(meta@),
                None => None,
            },
            status: self.status,
            supply: self.supply,
            settlement: self.settlement,
            dust: self.dust,
            journal: self.journal@,
            balances: self.balances@,
            entitlements: self.entitlements@,
            allowances: self.allowances@,
        }
    }
}

impl Invoice {
    /// An invoice of which the ledger keeps nothing.
    pub fn blank() -> (invoice: Self)
        ensures
            invoice@ == InvoiceView::blank(),
    {
        Invoice {
            meta: None,
            status: InvoiceStatus::Created,
            supply: 0,
            settlement: 0,
            dust: None,
            journal: Vec::new(),
            balances: Table::new(),
            entitlements: Table::new(),
            allowances: Table::new(),
        }
    }

    /// How much `holder` has.
    pub fn balance(&self, holder: Address) -> (amount: i128)
        ensures
            amount == self@.balance(holder),
    {
        match self.balances.get(&holder) {
            Some(amount) => *amount,
            None => 0,
        }
    }

    /// What is left of the entitlement that `holder` has from a transfer during partial
    /// settlement, if there is one.
    pub fn entitlement(&self, holder: Address) -> (amount: Option<i128>)
        ensures
            amount == self@.entitlement(holder),
    {
        match self.entitlements.get(&holder) {
            Some(amount) => Some(*amount),
            None => None,
        }
    }

    /// What `from` allows `spender`, expired or not.
    pub fn allowance(&self, from: Address, spender: Address) -> (allowance: AllowanceValue)
        ensures
            allowance == self@.allowance(from, spender),
    {
        match self.allowances.get(&(from, spender)) {
            Some(allowance) => *allowance,
            None => AllowanceValue { amount: 0, expiration_ledger: 0 },
        }
    }

    /// The metadata, where it is on record.
    pub fn require_meta(&self) -> (result: Result<&InvoiceMeta, Stop>)
        ensures
            verdict_of(result) == has_meta(self@),
            result matches Ok(meta) ==> self.meta == Some(*meta) && self@.meta == Some(meta@),
    {
        match &self.meta {
            Some(meta) => Ok(meta),
            None => Err(Stop::MissingInvoice),
        }
    }

    /// Goes to the next state and puts the transition on record.
    pub fn transition_status(
        &mut self,
        ledger: &Ledger,
        invoice_id: &ByteString,
        to: InvoiceStatus,
        log: &mut EffectLog,
    )
        ensures
            final(self)@ == old(self)@.moved_to(to, *ledger),
            final(log)@ == with_transition(old(log)@, invoice_id@),
    {
        let entry = JournalEntry {
            from_status: self.status,
            to_status: to,
            ledger: ledger.sequence,
            timestamp: ledger.timestamp,
        };
        self.journal.push(entry);
        self.status = to;
        log.store(DataKey::Journal(invoice_id.copy()), true);
        log.store(DataKey::InvoiceStatus(invoice_id.copy()), true);
    }
}

} // verus!
