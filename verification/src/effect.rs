//! What a call does to the ledger and to the contracts around the token.

use crate::text::ByteString;
use crate::types::{Address, DataKey};
use vstd::prelude::*;

verus! {

/// Ledgers in a day.
pub const DAY_IN_LEDGERS: u32 = 17280;

/// How far, in ledgers, the lifetime of an entry is extended.
pub const BUMP: u32 = 90 * DAY_IN_LEDGERS;

/// The remaining lifetime, in ledgers, below which an entry is extended.
pub const THRESHOLD: u32 = BUMP - DAY_IN_LEDGERS;

/// What a call announces. Strings are of type `S`.
#[derive(Clone, Debug, Eq, PartialEq)]
pub enum Event<S = ByteString> {
    FeeRecipientSet(Address),
    FeeExemptionSet(bool),
    LifecyclePaused,
    LifecycleResumed,
    InvoiceCreated(S),
    MetaUpdated,
    Issued { to: Address, invoice_id: S, amount: i128, webhook: S },
    Settled { invoice_id: S, webhook: S },
    PartiallySettled { invoice_id: S, amount: i128 },
    Redeemed { from: Address, invoice_id: S, amount: i128 },
    Burned { from: Address, invoice_id: S, amount: i128 },
    FeeCheckSkipped(Address),
    Transferred { from: Address, to: Address, invoice_id: S, amount: i128 },
    Approved {
        from: Address,
        spender: Address,
        invoice_id: S,
        amount: i128,
        expiration_ledger: u32,
    },
}

impl View for Event {
    type V = Event<Seq<u8>>;

    open spec fn view(&self) -> Event<Seq<u8>> {
        match self {
            Event::FeeRecipientSet(who) => Event::FeeRecipientSet(*who),
            Event::FeeExemptionSet(exempt) => Event::FeeExemptionSet(*exempt),
            Event::LifecyclePaused => Event::LifecyclePaused,
            Event::LifecycleResumed => Event::LifecycleResumed,
            Event::InvoiceCreated(id) => Event::InvoiceCreated(id@),
            Event::MetaUpdated => Event::MetaUpdated,
            Event::Issued { to, invoice_id, amount, webhook } => Event::Issued {
                to: *to,
                invoice_id: invoice_id@,
                amount: *amount,
                webhook: webhook@,
            },
            Event::Settled { invoice_id, webhook } => Event::Settled {
                invoice_id: invoice_id@,
                webhook: webhook@,
            },
            Event::PartiallySettled { invoice_id, amount } => Event::PartiallySettled {
                invoice_id: invoice_id@,
                amount: *amount,
            },
            Event::Redeemed { from, invoice_id, amount } => Event::Redeemed {
                from: *from,
                invoice_id: invoice_id@,
                amount: *amount,
            },
            Event::Burned { from, invoice_id, amount } => Event::Burned {
                from: *from,
                invoice_id: invoice_id@,
                amount: *amount,
            },
            Event::FeeCheckSkipped(who) => Event::FeeCheckSkipped(*who),
            Event::Transferred { from, to, invoice_id, amount } => Event::Transferred {
                from: *from,
                to: *to,
                invoice_id: invoice_id@,
                amount: *amount,
            },
            Event::Approved { from, spender, invoice_id, amount, expiration_ledger } => {
                Event::Approved {
                    from: *from,
                    spender: *spender,
                    invoice_id: invoice_id@,
                    amount: *amount,
                    expiration_ledger: *expiration_ledger,
                }
            },
        }
    }
}

impl Event {
    /// The name under which the event is published.
    pub open spec fn spec_topic(self) -> Seq<char> {
        match self {
            Event::FeeRecipientSet(_) => "fee_role"@,
            Event::FeeExemptionSet(_) => "fee_xmpt"@,
            Event::LifecyclePaused => "lc_pause"@,
            Event::LifecycleResumed => "lc_unpse"@,
            Event::InvoiceCreated(_) => "inv_crt"@,
            Event::MetaUpdated => "upd_meta"@,
            Event::Issued { .. } => "issued"@,
            Event::Settled { .. } => "settled"@,
            Event::PartiallySettled { .. } => "p_settld"@,
            Event::Redeemed { .. } => "redeemed"@,
            Event::Burned { .. } => "burn"@,
            Event::FeeCheckSkipped(_) => "fee_skip"@,
            Event::Transferred { .. } => "transfer"@,
            Event::Approved { .. } => "approve"@,
        }
    }

    /// The name under which the event is published.
    pub fn topic(&self) -> (topic: &'static str)
        ensures
            topic@ == self.spec_topic(),
    {
        match self {
            Event::FeeRecipientSet(_) => "fee_role",
            Event::FeeExemptionSet(_) => "fee_xmpt",
            Event::LifecyclePaused => "lc_pause",
            Event::LifecycleResumed => "lc_unpse",
            Event::InvoiceCreated(_) => "inv_crt",
            Event::MetaUpdated => "upd_meta",
            Event::Issued { .. } => "issued",
            Event::Settled { .. } => "settled",
            Event::PartiallySettled { .. } => "p_settld",
            Event::Redeemed { .. } => "redeemed",
            Event::Burned { .. } => "burn",
            Event::FeeCheckSkipped(_) => "fee_skip",
            Event::Transferred { .. } => "transfer",
            Event::Approved { .. } => "approve",
        }
    }
}

/// One thing to do outside the token. Strings are of type `S`.
#[derive(Clone, Debug, Eq, PartialEq)]
pub enum Effect<S = ByteString> {
    /// Extend the lifetime of the contract instance to `BUMP`, if below `THRESHOLD`.
    ExtendInstance,
    /// Write the entry as the token now has it; with `extend`, extend its lifetime to
    /// `BUMP`, if below `THRESHOLD`.
    Store { key: DataKey<S>, extend: bool },
    /// Register the holder with the compliance engine.
    RegisterHolder(Address),
    Publish(Event<S>),
    /// Set the administrator, the KYC registry, the compliance engine of a new contract.
    WriteAdmin(Address),
    WriteKycRegistry(Address),
    WriteComplianceEngine(Address),
    /// Have the administrator replace the KYC registry or the compliance engine.
    UpdateKycRegistry(Address),
    UpdateComplianceEngine(Address),
    /// Have the administrator propose a successor, or the successor accept.
    ProposeAdmin(Address),
    AcceptAdmin,
}

impl View for Effect {
    type V = Effect<Seq<u8>>;

    open spec fn view(&self) -> Effect<Seq<u8>> {
        match self {
            Effect::ExtendInstance => Effect::ExtendInstance,
            Effect::Store { key, extend } => Effect::Store { key: key@, extend: *extend },
            Effect::RegisterHolder(who) => Effect::RegisterHolder(*who),
            Effect::Publish(event) => Effect::Publish(event@),
            Effect::WriteAdmin(who) => Effect::WriteAdmin(*who),
            Effect::WriteKycRegistry(who) => Effect::WriteKycRegistry(*who),
            Effect::WriteComplianceEngine(who) => Effect::WriteComplianceEngine(*who),
            Effect::UpdateKycRegistry(who) => Effect::UpdateKycRegistry(*who),
            Effect::UpdateComplianceEngine(who) => Effect::UpdateComplianceEngine(*who),
            Effect::ProposeAdmin(who) => Effect::ProposeAdmin(*who),
            Effect::AcceptAdmin => Effect::AcceptAdmin,
        }
    }
}

/// Writing an entry.
pub open spec fn store(key: DataKey<Seq<u8>>, extend: bool) -> Effect<Seq<u8>> {
    Effect::Store { key, extend }
}

/// The effects of a call, in order.
#[derive(Clone, Debug, Eq, PartialEq)]
pub struct EffectLog {
    pub effects: Vec<Effect>,
}

impl View for EffectLog {
    type V = Seq<Effect<Seq<u8>>>;

    open spec fn view(&self) -> Seq<Effect<Seq<u8>>> {
        self.effects@.map_values(|effect: Effect| effect@)
    }
}

impl EffectLog {
    /// No effects.
    pub fn new() -> (log: Self)
        ensures
            log@ == Seq::<Effect<Seq<u8>>>::empty(),
    {
        let log = EffectLog { effects: Vec::new() };
        assert(log@ =~= Seq::<Effect<Seq<u8>>>::empty());
        log
    }

    /// Adds an effect at the end.
    pub fn push(&mut self, effect: Effect)
        ensures
            final(self)@ == old(self)@.push(effect@),
    {
        self.effects.push(effect);
        assert(self@ =~= old(self)@.push(effect@));
    }

    /// Adds the writing of an entry at the end.
    pub fn store(&mut self, key: DataKey, extend: bool)
        ensures
            final(self)@ == old(self)@.push(store(key@, extend)),
    {
        self.push(Effect::Store { key, extend });
    }

    /// Adds the publishing of an event at the end.
    pub fn publish(&mut self, event: Event)
        ensures
            final(self)@ == old(self)@.push(Effect::Publish(event@)),
    {
        self.push(Effect::Publish(event));
    }
}

} // verus!
