//! Redemption after settlement, and burning.

use crate::amount::{lesser, min, saturated, saturating_difference, settlement_share, share};
use crate::effect::{store, Effect, EffectLog, Event};
use crate::history::{leads_to, InvoiceCall, Occasion, TokenCall};
use crate::invoice::{with_transition, Invoice, InvoiceView};
use crate::step::{
    authorizes, compliance_allows, difference, ensure, fits, not_negative, require_auth,
    require_compliance, require_not_negative, verdict_of, InTurn, Replies, Stop, Verdict,
};
use crate::text::ByteString;
use crate::token::InvoiceToken;
use crate::transfer::{debited, spent};
use crate::types::{Address, AllowanceValue, DataKey, InvoiceError, InvoiceStatus, Ledger};
use vstd::prelude::*;

verus! {

/// Whether holders may redeem.
pub open spec fn redeemable_state(status: InvoiceStatus) -> bool {
    status is PartiallySettled || status is FullySettled
}

/// Whether holders may redeem.
fn is_redeemable(status: InvoiceStatus) -> (yes: bool)
    ensures
        yes == redeemable_state(status),
{
    match status {
        InvoiceStatus::PartiallySettled | InvoiceStatus::FullySettled => true,
        _ => false,
    }
}

/// Whether the last token of a settled invoice is gone.
pub open spec fn closes(invoice: InvoiceView) -> bool {
    invoice.supply == 0 && redeemable_state(invoice.status)
}

/// The invoice in state `Redeemed`, if its supply is gone.
pub open spec fn closed_if_empty(invoice: InvoiceView, ledger: Ledger) -> InvoiceView {
    if closes(invoice) {
        invoice.moved_to(InvoiceStatus::Redeemed, ledger)
    } else {
        invoice
    }
}

/// `effects`, followed by those of closing the invoice, if its supply is gone.
pub open spec fn with_closing(
    effects: Seq<Effect<Seq<u8>>>,
    invoice: InvoiceView,
    id: Seq<u8>,
) -> Seq<Effect<Seq<u8>>> {
    if closes(invoice) {
        with_transition(effects, id)
    } else {
        effects
    }
}

/// The invoice with tokens of a holder taken out of circulation.
pub open spec fn destroyed(invoice: InvoiceView, from: Address, amount: i128) -> InvoiceView {
    InvoiceView {
        balances: debited(invoice.balances, from, amount as int),
        supply: (invoice.supply - amount) as i128,
        ..invoice
    }
}

/// `effects`, followed by those of taking tokens of a holder out of circulation.
pub open spec fn with_destruction(
    effects: Seq<Effect<Seq<u8>>>,
    id: Seq<u8>,
    from: Address,
) -> Seq<Effect<Seq<u8>>> {
    effects.push(store(DataKey::Balance(from, id), false)).push(
        store(DataKey::TotalSupply(id), true),
    )
}

/// Tokens of a holder can go out of circulation: the holder has them, and the supply stays
/// in range.
pub open spec fn destructible(invoice: InvoiceView, from: Address, amount: i128) -> Verdict {
    ensure(invoice.balance(from) >= amount, InvoiceError::InsufficientBalance).and_next(
        fits(invoice.supply - amount),
    )
}

// ---- Redemption ----

/// What of the settlement has not been redeemed.
pub open spec fn unredeemed(invoice: InvoiceView) -> i128 {
    match invoice.dust {
        Some(dust) => dust,
        None => 0,
    }
}

/// What a holder has coming of a partial settlement: what is left of the entitlement fixed
/// by a transfer, or else the share of the settlement.
pub open spec fn partial_claim(invoice: InvoiceView, from: Address) -> i128 {
    match invoice.entitlement(from) {
        Some(left) => lesser(left, invoice.balance(from)),
        None => if invoice.settlement > 0 && invoice.supply > 0 {
            let worth = share(invoice.balance(from), invoice.settlement, invoice.supply);
            if worth <= i128::MAX {
                worth as i128
            } else {
                0
            }
        } else {
            0
        },
    }
}

/// The most that a holder may redeem: after full settlement the entire balance; during
/// partial settlement the claim, and never more than what is left of the settlement.
pub open spec fn redemption_cap(invoice: InvoiceView, from: Address) -> i128 {
    match invoice.status {
        InvoiceStatus::FullySettled => invoice.balance(from),
        InvoiceStatus::PartiallySettled => lesser(
            partial_claim(invoice, from),
            unredeemed(invoice),
        ),
        _ => 0,
    }
}

/// Whether a redemption goes through.
pub open spec fn redeem_verdict(
    invoice: InvoiceView,
    paused: bool,
    replies: Replies,
    from: Address,
    amount: i128,
) -> Verdict {
    authorizes(replies, from).and_next(ensure(!paused, InvoiceError::LifecyclePaused)).and_next(
        ensure(redeemable_state(invoice.status), InvoiceError::NotSettled),
    ).and_next(compliance_allows(replies, from, from, amount)).and_next(
        ensure(invoice.balance(from) >= amount, InvoiceError::InsufficientBalance),
    ).and_next(
        ensure(amount <= redemption_cap(invoice, from), InvoiceError::OverSettlement),
    ).and_next(not_negative(amount)).and_next(fits(invoice.supply - amount))
}

/// What is left of a settlement of which a part has been redeemed.
pub open spec fn left_of(settlement: i128, redeemed: i128) -> i128 {
    saturated(settlement - redeemed)
}

/// What is left of an entitlement of which a part has been redeemed: nothing, once it is
/// used up.
pub open spec fn remaining(entitlement: i128, redeemed: i128) -> i128 {
    if redeemed < entitlement {
        (entitlement - redeemed) as i128
    } else {
        0
    }
}

/// The entitlements after a redemption. One that is used up stays, with nothing left.
pub open spec fn used_entitlements(invoice: InvoiceView, from: Address, amount: i128) -> Map<
    Address,
    i128,
> {
    match invoice.entitlement(from) {
        None => invoice.entitlements,
        Some(stored) => invoice.entitlements.insert(from, remaining(stored, amount)),
    }
}

/// The invoice after a redemption, before it is closed.
pub open spec fn paid_out(invoice: InvoiceView, from: Address, amount: i128) -> InvoiceView {
    InvoiceView {
        entitlements: used_entitlements(invoice, from, amount),
        dust: match invoice.dust {
            Some(dust) => Some(left_of(dust, amount)),
            None => None,
        },
        ..destroyed(invoice, from, amount)
    }
}

/// The invoice after a redemption.
pub open spec fn redeemed(
    invoice: InvoiceView,
    ledger: Ledger,
    from: Address,
    amount: i128,
) -> InvoiceView {
    closed_if_empty(paid_out(invoice, from, amount), ledger)
}

/// The effects of a redemption.
pub open spec fn redeem_effects(
    invoice: InvoiceView,
    id: Seq<u8>,
    from: Address,
    amount: i128,
) -> Seq<Effect<Seq<u8>>> {
    let destruction = with_destruction(seq![Effect::ExtendInstance], id, from);
    let entitlement = match invoice.entitlement(from) {
        None => destruction,
        Some(stored) => destruction.push(
            store(DataKey::SettledEntitlement(id, from), true),
        ),
    };
    let dust = if invoice.dust is Some {
        entitlement.push(store(DataKey::RedemptionDust(id), true))
    } else {
        entitlement
    };
    with_closing(dust, paid_out(invoice, from, amount), id).push(
        Effect::Publish(Event::Redeemed { from, invoice_id: id, amount }),
    )
}

// ---- Burning ----

/// Whether a burn goes through.
pub open spec fn burn_verdict(
    invoice: InvoiceView,
    replies: Replies,
    from: Address,
    amount: i128,
) -> Verdict {
    authorizes(replies, from).and_next(compliance_allows(replies, from, from, amount)).and_next(
        destructible(invoice, from, amount),
    ).and_next(not_negative(amount))
}

/// The invoice after a burn.
pub open spec fn burned(
    invoice: InvoiceView,
    ledger: Ledger,
    from: Address,
    amount: i128,
) -> InvoiceView {
    closed_if_empty(destroyed(invoice, from, amount), ledger)
}

/// `effects`, followed by those of a burn.
pub open spec fn with_burn(
    effects: Seq<Effect<Seq<u8>>>,
    invoice: InvoiceView,
    id: Seq<u8>,
    from: Address,
    amount: i128,
) -> Seq<Effect<Seq<u8>>> {
    with_closing(
        with_destruction(effects, id, from),
        destroyed(invoice, from, amount),
        id,
    ).push(Effect::Publish(Event::Burned { from, invoice_id: id, amount }))
}

/// The spender may burn this amount.
pub open spec fn allowance_covers_burn(
    allowance: AllowanceValue,
    ledger: Ledger,
    amount: i128,
) -> Verdict {
    ensure(allowance.amount >= amount, InvoiceError::InsufficientAllowance).and_next(
        ensure(allowance.expiration_ledger >= ledger.sequence, InvoiceError::AllowanceExpired),
    )
}

/// Whether a delegated burn goes through.
pub open spec fn burn_from_verdict(
    invoice: InvoiceView,
    ledger: Ledger,
    replies: Replies,
    spender: Address,
    from: Address,
    amount: i128,
) -> Verdict {
    authorizes(replies, spender).and_next(compliance_allows(replies, from, from, amount)).and_next(
        allowance_covers_burn(invoice.allowance(from, spender), ledger, amount),
    ).and_next(destructible(invoice, from, amount)).and_next(not_negative(amount))
}

// ---- Code ----

impl Invoice {
    /// What a holder has coming of a partial settlement.
    fn partial_claim(&self, from: Address) -> (claim: i128)
        ensures
            claim == partial_claim(self@, from),
    {
        match self.entitlement(from) {
            Some(left) => min(left, self.balance(from)),
            None => {
                if self.settlement > 0 && self.supply > 0 {
                    let worth: u128 = settlement_share(
                        self.balance(from),
                        self.settlement,
                        self.supply,
                    );
                    if worth <= i128::MAX as u128 {
                        worth as i128
                    } else {
                        0
                    }
                } else {
                    0
                }
            },
        }
    }

    /// The most that a holder may redeem.
    fn redemption_cap(&self, from: Address) -> (cap: i128)
        ensures
            cap == redemption_cap(self@, from),
    {
        match self.status {
            InvoiceStatus::FullySettled => self.balance(from),
            InvoiceStatus::PartiallySettled => {
                let left: i128 = match self.dust {
                    Some(dust) => dust,
                    None => 0,
                };
                min(self.partial_claim(from), left)
            },
            _ => 0,
        }
    }

    /// Stops unless tokens of a holder can go out of circulation.
    fn require_destructible(&self, from: Address, amount: i128) -> (result: Result<(), Stop>)
        ensures
            verdict_of(result) == destructible(self@, from, amount),
    {
        if self.balance(from) < amount {
            return Err(Stop::Error(InvoiceError::InsufficientBalance));
        }
        difference(self.supply, amount)?;
        Ok(())
    }

    /// Takes tokens of a holder out of circulation.
    fn destroy(&mut self, id: &ByteString, from: Address, amount: i128, log: &mut EffectLog)
        requires
            amount >= 0,
            destructible(old(self)@, from, amount) is Ok,
        ensures
            final(self)@ == destroyed(old(self)@, from, amount),
            final(log)@ == with_destruction(old(log)@, id@, from),
    {
        let balance: i128 = self.balance(from) - amount;
        self.balances.insert(from, balance);
        log.store(DataKey::Balance(from, id.copy()), false);
        self.supply = self.supply - amount;
        log.store(DataKey::TotalSupply(id.copy()), true);
    }

    /// Closes the invoice, if its supply is gone.
    fn close_if_empty(&mut self, ledger: &Ledger, id: &ByteString, log: &mut EffectLog)
        ensures
            final(self)@ == closed_if_empty(old(self)@, *ledger),
            final(log)@ == with_closing(old(log)@, old(self)@, id@),
    {
        if self.supply == 0 && is_redeemable(self.status) {
            self.transition_status(ledger, id, InvoiceStatus::Redeemed, log);
        }
    }

    /// Takes a redeemed amount off what its holder may still redeem.
    fn use_entitlement(&mut self, id: &ByteString, from: Address, amount: i128, log: &mut EffectLog)
        requires
            amount >= 0,
        ensures
            final(self)@ == (InvoiceView {
                entitlements: used_entitlements(old(self)@, from, amount),
                ..old(self)@
            }),
            final(log)@ == match old(self)@.entitlement(from) {
                None => old(log)@,
                Some(stored) => old(log)@.push(
                    store(DataKey::SettledEntitlement(id@, from), true),
                ),
            },
    {
        if let Some(stored) = self.entitlement(from) {
            let left: i128 = if amount < stored {
                stored - amount
            } else {
                0
            };
            self.entitlements.insert(from, left);
            log.store(DataKey::SettledEntitlement(id.copy(), from), true);
        }
    }

    /// Takes a redeemed amount off what of the settlement has not been redeemed.
    fn use_dust(&mut self, id: &ByteString, amount: i128, log: &mut EffectLog)
        ensures
            final(self)@ == (InvoiceView {
                dust: match old(self)@.dust {
                    Some(dust) => Some(left_of(dust, amount)),
                    None => None,
                },
                ..old(self)@
            }),
            final(log)@ == if old(self)@.dust is Some {
                old(log)@.push(store(DataKey::RedemptionDust(id@), true))
            } else {
                old(log)@
            },
    {
        if let Some(dust) = self.dust {
            self.dust = Some(saturating_difference(dust, amount));
            log.store(DataKey::RedemptionDust(id.copy()), true);
        }
    }

    /// Pays a settled amount out to `from`, who has to authorize it, for as many tokens.
    pub fn redeem(
        &mut self,
        paused: bool,
        ledger: &Ledger,
        replies: &Replies,
        id: &ByteString,
        from: Address,
        amount: i128,
    ) -> (result: Result<EffectLog, Stop>)
        ensures
            verdict_of(result) == redeem_verdict(old(self)@, paused, *replies, from, amount),
            result is Err ==> final(self)@ == old(self)@,
            result matches Ok(log) ==> {
                &&& final(self)@ == redeemed(old(self)@, *ledger, from, amount)
                &&& log@ == redeem_effects(old(self)@, id@, from, amount)
            },
    {
        require_auth(replies, from)?;
        if paused {
            return Err(Stop::Error(InvoiceError::LifecyclePaused));
        }
        if !is_redeemable(self.status) {
            return Err(Stop::Error(InvoiceError::NotSettled));
        }
        require_compliance(replies, from, from, amount)?;
        if self.balance(from) < amount {
            return Err(Stop::Error(InvoiceError::InsufficientBalance));
        }
        if amount > self.redemption_cap(from) {
            return Err(Stop::Error(InvoiceError::OverSettlement));
        }
        require_not_negative(amount)?;
        difference(self.supply, amount)?;
        let mut log = EffectLog::new();
        log.push(Effect::ExtendInstance);
        self.destroy(id, from, amount, &mut log);
        self.use_entitlement(id, from, amount, &mut log);
        self.use_dust(id, amount, &mut log);
        assert(self@ =~= paid_out(old(self)@, from, amount));
        self.close_if_empty(ledger, id, &mut log);
        log.publish(Event::Redeemed { from, invoice_id: id.copy(), amount });
        Ok(log)
    }

    /// Takes tokens of `from`, who has to authorize it, out of circulation.
    pub fn burn(
        &mut self,
        ledger: &Ledger,
        replies: &Replies,
        id: &ByteString,
        from: Address,
        amount: i128,
    ) -> (result: Result<EffectLog, Stop>)
        ensures
            verdict_of(result) == burn_verdict(old(self)@, *replies, from, amount),
            result is Err ==> final(self)@ == old(self)@,
            result matches Ok(log) ==> {
                &&& final(self)@ == burned(old(self)@, *ledger, from, amount)
                &&& log@ == with_burn(Seq::empty(), old(self)@, id@, from, amount)
            },
    {
        require_auth(replies, from)?;
        require_compliance(replies, from, from, amount)?;
        self.require_destructible(from, amount)?;
        require_not_negative(amount)?;
        let mut log = EffectLog::new();
        self.destroy(id, from, amount, &mut log);
        self.close_if_empty(ledger, id, &mut log);
        log.publish(Event::Burned { from, invoice_id: id.copy(), amount });
        Ok(log)
    }

    /// Takes tokens of `from` out of circulation, by the allowance of `spender`, who has
    /// to authorize it.
    pub fn burn_from(
        &mut self,
        ledger: &Ledger,
        replies: &Replies,
        id: &ByteString,
        spender: Address,
        from: Address,
        amount: i128,
    ) -> (result: Result<EffectLog, Stop>)
        ensures
            verdict_of(result) == burn_from_verdict(
                old(self)@,
                *ledger,
                *replies,
                spender,
                from,
                amount,
            ),
            result is Err ==> final(self)@ == old(self)@,
            result matches Ok(log) ==> {
                &&& final(self)@ == burned(
                    spent(old(self)@, from, spender, amount),
                    *ledger,
                    from,
                    amount,
                )
                &&& log@ == with_burn(
                    seq![store(DataKey::Allowance(from, spender, id@), false)],
                    old(self)@,
                    id@,
                    from,
                    amount,
                )
            },
    {
        require_auth(replies, spender)?;
        require_compliance(replies, from, from, amount)?;
        let allowance = self.allowance(from, spender);
        if allowance.amount < amount {
            return Err(Stop::Error(InvoiceError::InsufficientAllowance));
        }
        if allowance.expiration_ledger < ledger.sequence {
            return Err(Stop::Error(InvoiceError::AllowanceExpired));
        }
        self.require_destructible(from, amount)?;
        require_not_negative(amount)?;
        let mut log = EffectLog::new();
        self.allowances.insert(
            (from, spender),
            AllowanceValue {
                amount: allowance.amount - amount,
                expiration_ledger: allowance.expiration_ledger,
            },
        );
        log.store(DataKey::Allowance(from, spender, id.copy()), false);
        assert(self@ =~= spent(old(self)@, from, spender, amount));
        self.destroy(id, from, amount, &mut log);
        self.close_if_empty(ledger, id, &mut log);
        log.publish(Event::Burned { from, invoice_id: id.copy(), amount });
        Ok(log)
    }
}

impl InvoiceToken {
    /// Redeems tokens of a settled invoice for `from`, who has to authorize it. During
    /// partial settlement that is in proportion, and never more than what is left of the
    /// settlement; after full settlement, up to the entire balance. The tokens go out of
    /// circulation; when none are left, the invoice is closed.
    pub fn redeem(
        &mut self,
        ledger: &Ledger,
        replies: &Replies,
        invoice_id: &ByteString,
        from: Address,
        amount: i128,
    ) -> (result: Result<EffectLog, Stop>)
        ensures
            verdict_of(result) == redeem_verdict(
                old(self)@.invoices[invoice_id@],
                old(self)@.paused,
                *replies,
                from,
                amount,
            ),
            result is Err ==> final(self)@ == old(self)@,
            result matches Ok(log) ==> {
                let invoice = old(self)@.invoices[invoice_id@];
                &&& final(self)@ == old(self)@.with_invoice(
                    invoice_id@,
                    redeemed(invoice, *ledger, from, amount),
                )
                &&& log@ == redeem_effects(invoice, invoice_id@, from, amount)
            },
            leads_to(
                old(self)@,
                (Occasion {
                    ledger: *ledger,
                    replies: *replies,
                    call: TokenCall::OnInvoice {
                        id: invoice_id@,
                        call: InvoiceCall::Redeem { from, amount },
                    },
                }),
                result,
                final(self)@,
            ),
    {
        let mut invoice = self.take_invoice(invoice_id);
        let result = invoice.redeem(self.paused, ledger, replies, invoice_id, from, amount);
        self.put_invoice(invoice_id, invoice);
        assert(self@ =~= old(self)@.with_invoice(invoice_id@, invoice@));
        assert(result is Err ==> self@ =~= old(self)@);
        result
    }

    /// Burns tokens of `from`, who has to authorize it, in whatever state the invoice is.
    pub fn burn(
        &mut self,
        ledger: &Ledger,
        replies: &Replies,
        invoice_id: &ByteString,
        from: Address,
        amount: i128,
    ) -> (result: Result<EffectLog, Stop>)
        ensures
            verdict_of(result) == burn_verdict(
                old(self)@.invoices[invoice_id@],
                *replies,
                from,
                amount,
            ),
            result is Err ==> final(self)@ == old(self)@,
            result matches Ok(log) ==> {
                let invoice = old(self)@.invoices[invoice_id@];
                &&& final(self)@ == old(self)@.with_invoice(
                    invoice_id@,
                    burned(invoice, *ledger, from, amount),
                )
                &&& log@ == with_burn(Seq::empty(), invoice, invoice_id@, from, amount)
            },
            leads_to(
                old(self)@,
                (Occasion {
                    ledger: *ledger,
                    replies: *replies,
                    call: TokenCall::OnInvoice {
                        id: invoice_id@,
                        call: InvoiceCall::Burn { from, amount },
                    },
                }),
                result,
                final(self)@,
            ),
    {
        let mut invoice = self.take_invoice(invoice_id);
        let result = invoice.burn(ledger, replies, invoice_id, from, amount);
        self.put_invoice(invoice_id, invoice);
        assert(self@ =~= old(self)@.with_invoice(invoice_id@, invoice@));
        assert(result is Err ==> self@ =~= old(self)@);
        result
    }

    /// Burns tokens of `from` by the allowance of `spender`, who has to authorize it.
    pub fn burn_from(
        &mut self,
        ledger: &Ledger,
        replies: &Replies,
        spender: Address,
        invoice_id: &ByteString,
        from: Address,
        amount: i128,
    ) -> (result: Result<EffectLog, Stop>)
        ensures
            verdict_of(result) == burn_from_verdict(
                old(self)@.invoices[invoice_id@],
                *ledger,
                *replies,
                spender,
                from,
                amount,
            ),
            result is Err ==> final(self)@ == old(self)@,
            result matches Ok(log) ==> {
                let invoice = old(self)@.invoices[invoice_id@];
                &&& final(self)@ == old(self)@.with_invoice(
                    invoice_id@,
                    burned(spent(invoice, from, spender, amount), *ledger, from, amount),
                )
                &&& log@ == with_burn(
                    seq![store(DataKey::Allowance(from, spender, invoice_id@), false)],
                    invoice,
                    invoice_id@,
                    from,
                    amount,
                )
            },
            leads_to(
                old(self)@,
                (Occasion {
                    ledger: *ledger,
                    replies: *replies,
                    call: TokenCall::OnInvoice {
                        id: invoice_id@,
                        call: InvoiceCall::BurnFrom { spender, from, amount },
                    },
                }),
                result,
                final(self)@,
            ),
    {
        let mut invoice = self.take_invoice(invoice_id);
        let result = invoice.burn_from(ledger, replies, invoice_id, spender, from, amount);
        self.put_invoice(invoice_id, invoice);
        assert(self@ =~= old(self)@.with_invoice(invoice_id@, invoice@));
        assert(result is Err ==> self@ =~= old(self)@);
        result
    }
}

} // verus!
