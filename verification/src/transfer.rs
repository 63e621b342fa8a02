//! Transfers between holders, directly or by an allowance.

use crate::amount::{
    fee_fits, fee_of, lesser, min, settlement_share, share, signed, to_signed, transfer_fee,
};
use crate::effect::{store, Effect, EffectLog, Event};
use crate::history::{leads_to, InvoiceCall, Occasion, TokenCall};
use crate::invoice::{has_meta, held, Invoice, InvoiceView};
use crate::step::{
    authorizes, compliance_allows, ensure, fee_compliance_allows, fits, not_negative, require_auth,
    require_compliance, require_fee_compliance, require_not_negative, sum, verdict_of, InTurn,
    Replies, Stop, Verdict,
};
use crate::text::ByteString;
use crate::token::InvoiceToken;
use crate::types::{Address, AllowanceValue, DataKey, InvoiceError, InvoiceStatus, Ledger};
use vstd::prelude::*;

verus! {

// ---- What a transfer needs ----

/// Holders may transfer before full settlement, once tokens have been issued.
pub open spec fn transferable(status: InvoiceStatus) -> Verdict {
    match status {
        InvoiceStatus::Issued | InvoiceStatus::PartiallySettled => Ok(()),
        InvoiceStatus::FullySettled | InvoiceStatus::Redeemed => Err(
            Stop::Error(InvoiceError::AlreadySettled),
        ),
        InvoiceStatus::Created => Err(Stop::Error(InvoiceError::InvalidLifecycleTransition)),
    }
}

/// The invoice is open for a transfer of this amount.
pub open spec fn open_for_transfer(invoice: InvoiceView, ledger: Ledger, amount: i128) -> Verdict {
    transferable(invoice.status).and_next(has_meta(invoice)).and_next(
        ensure(ledger.timestamp <= invoice.meta->0.due_date, InvoiceError::PastDueDate),
    ).and_next(not_negative(amount))
}

/// The fee on a transfer of this amount.
pub open spec fn fee_on(invoice: InvoiceView, amount: i128) -> int {
    fee_of(invoice.meta->0, amount)
}

/// Who gets the fee.
pub open spec fn fee_recipient(invoice: InvoiceView) -> Address {
    invoice.meta->0.fee_recipient->0
}

/// The balances after `from` is debited.
pub open spec fn debited(balances: Map<Address, i128>, from: Address, amount: int) -> Map<
    Address,
    i128,
> {
    balances.insert(from, (held(balances, from) - amount) as i128)
}

/// The balances after `to` is credited.
pub open spec fn credited(balances: Map<Address, i128>, to: Address, amount: int) -> Map<
    Address,
    i128,
> {
    balances.insert(to, (held(balances, to) + amount) as i128)
}

/// The balances after `from` has paid the amount and `to` has got it less the fee.
pub open spec fn paid(
    balances: Map<Address, i128>,
    from: Address,
    to: Address,
    amount: i128,
    fee: int,
) -> Map<Address, i128> {
    credited(debited(balances, from, amount as int), to, amount - fee)
}

/// The tokens can move: the sender has them, and no balance leaves its range. Unless
/// exempt, the recipient of a fee has to pass the compliance check.
pub open spec fn movable(
    invoice: InvoiceView,
    exempt: bool,
    replies: Replies,
    from: Address,
    to: Address,
    amount: i128,
) -> Verdict {
    let fee = fee_on(invoice, amount);
    let recipient = fee_recipient(invoice);
    ensure(invoice.balance(from) >= amount, InvoiceError::InsufficientBalance).and_next(
        fits(held(debited(invoice.balances, from, amount as int), to) + amount - fee),
    ).and_next(
        if fee > 0 {
            (if exempt {
                Ok(())
            } else {
                fee_compliance_allows(replies, from, recipient, fee as i128)
            }).and_next(fits(held(paid(invoice.balances, from, to, amount, fee), recipient) + fee))
        } else {
            Ok(())
        },
    )
}

// ---- What a transfer changes ----

/// Whether a transfer fixes what the sender may redeem.
pub open spec fn fixes_entitlement(invoice: InvoiceView) -> bool {
    invoice.status is PartiallySettled && invoice.supply > 0 && invoice.settlement > 0
}

/// What the sender may redeem after a transfer during partial settlement: the share of
/// the balance before the transfer, and never more than an earlier transfer left.
pub open spec fn fixed_entitlement(invoice: InvoiceView, from: Address) -> i128 {
    let computed = signed(
        share(invoice.balance(from), invoice.settlement, invoice.supply),
    ) as i128;
    match invoice.entitlement(from) {
        None => computed,
        Some(existing) => lesser(existing, computed),
    }
}

/// The invoice with the sender's entitlement fixed.
pub open spec fn entitled(invoice: InvoiceView, from: Address) -> InvoiceView {
    if fixes_entitlement(invoice) {
        InvoiceView {
            entitlements: invoice.entitlements.insert(from, fixed_entitlement(invoice, from)),
            ..invoice
        }
    } else {
        invoice
    }
}

/// The balances after a transfer, with the fee paid out of the amount.
pub open spec fn transferred_balances(
    invoice: InvoiceView,
    from: Address,
    to: Address,
    amount: i128,
) -> Map<Address, i128> {
    let fee = fee_on(invoice, amount);
    let balances = paid(invoice.balances, from, to, amount, fee);
    if fee > 0 {
        credited(balances, fee_recipient(invoice), fee)
    } else {
        balances
    }
}

/// The invoice after a transfer.
pub open spec fn transferred(
    invoice: InvoiceView,
    from: Address,
    to: Address,
    amount: i128,
) -> InvoiceView {
    InvoiceView {
        balances: transferred_balances(invoice, from, to, amount),
        ..entitled(invoice, from)
    }
}

/// `effects`, followed by those of a transfer.
pub open spec fn with_transfer(
    effects: Seq<Effect<Seq<u8>>>,
    invoice: InvoiceView,
    exempt: bool,
    id: Seq<u8>,
    from: Address,
    to: Address,
    amount: i128,
) -> Seq<Effect<Seq<u8>>> {
    let recipient = fee_recipient(invoice);
    let fixed = if fixes_entitlement(invoice) {
        effects.push(store(DataKey::SettledEntitlement(id, from), true))
    } else {
        effects
    };
    let moved = fixed.push(store(DataKey::Balance(from, id), true)).push(
        store(DataKey::Balance(to, id), true),
    );
    let charged = if fee_on(invoice, amount) > 0 {
        let noted = if exempt {
            moved.push(Effect::Publish(Event::FeeCheckSkipped(recipient)))
        } else {
            moved
        };
        noted.push(store(DataKey::Balance(recipient, id), true)).push(
            Effect::RegisterHolder(recipient),
        )
    } else {
        moved
    };
    charged.push(Effect::RegisterHolder(to)).push(
        Effect::Publish(Event::Transferred { from, to, invoice_id: id, amount }),
    )
}

// ---- Direct transfer ----

/// Whether a transfer goes through.
pub open spec fn transfer_verdict(
    invoice: InvoiceView,
    exempt: bool,
    ledger: Ledger,
    replies: Replies,
    from: Address,
    to: Address,
    amount: i128,
) -> Verdict {
    authorizes(replies, from).and_next(open_for_transfer(invoice, ledger, amount)).and_next(
        compliance_allows(replies, from, to, amount),
    ).and_next(fee_fits(invoice.meta->0, amount)).and_next(
        movable(invoice, exempt, replies, from, to, amount),
    )
}

/// The effects of a transfer.
pub open spec fn transfer_effects(
    invoice: InvoiceView,
    exempt: bool,
    id: Seq<u8>,
    from: Address,
    to: Address,
    amount: i128,
) -> Seq<Effect<Seq<u8>>> {
    with_transfer(seq![Effect::ExtendInstance], invoice, exempt, id, from, to, amount)
}

// ---- Transfer by an allowance ----

/// The spender may move this amount.
pub open spec fn allowance_covers_transfer(
    allowance: AllowanceValue,
    ledger: Ledger,
    amount: i128,
) -> Verdict {
    ensure(
        allowance.expiration_ledger >= ledger.sequence,
        InvoiceError::AllowanceExpired,
    ).and_next(ensure(allowance.amount >= amount, InvoiceError::InsufficientAllowance))
}

/// The invoice after the spender has used up this much of the allowance.
pub open spec fn spent(
    invoice: InvoiceView,
    from: Address,
    spender: Address,
    amount: i128,
) -> InvoiceView {
    let allowance = invoice.allowance(from, spender);
    InvoiceView {
        allowances: invoice.allowances.insert(
            (from, spender),
            AllowanceValue { amount: (allowance.amount - amount) as i128, ..allowance },
        ),
        ..invoice
    }
}

/// Whether a delegated transfer goes through.
pub open spec fn transfer_from_verdict(
    invoice: InvoiceView,
    exempt: bool,
    ledger: Ledger,
    replies: Replies,
    spender: Address,
    from: Address,
    to: Address,
    amount: i128,
) -> Verdict {
    authorizes(replies, spender).and_next(open_for_transfer(invoice, ledger, amount)).and_next(
        compliance_allows(replies, from, to, amount),
    ).and_next(
        allowance_covers_transfer(invoice.allowance(from, spender), ledger, amount),
    ).and_next(fee_fits(invoice.meta->0, amount)).and_next(
        movable(invoice, exempt, replies, from, to, amount),
    )
}

/// The effects of a delegated transfer.
pub open spec fn transfer_from_effects(
    invoice: InvoiceView,
    exempt: bool,
    id: Seq<u8>,
    spender: Address,
    from: Address,
    to: Address,
    amount: i128,
) -> Seq<Effect<Seq<u8>>> {
    with_transfer(
        seq![store(DataKey::Allowance(from, spender, id), false)],
        invoice,
        exempt,
        id,
        from,
        to,
        amount,
    )
}

// ---- Code ----

/// A transfer that can be carried out, with the balances that it leads to.
struct Movement {
    fee: i128,
    from_balance: i128,
    to_balance: i128,
    /// Who gets the fee, and the balance after it, where there is a fee.
    recipient: Option<(Address, i128)>,
}

impl Invoice {
    /// Stops unless the invoice is open for a transfer of this amount.
    fn require_open(&self, ledger: &Ledger, amount: i128) -> (result: Result<(), Stop>)
        ensures
            verdict_of(result) == open_for_transfer(self@, *ledger, amount),
    {
        match self.status {
            InvoiceStatus::Issued | InvoiceStatus::PartiallySettled => {},
            InvoiceStatus::FullySettled | InvoiceStatus::Redeemed => {
                return Err(Stop::Error(InvoiceError::AlreadySettled));
            },
            InvoiceStatus::Created => {
                return Err(Stop::Error(InvoiceError::InvalidLifecycleTransition));
            },
        }
        let meta = self.require_meta()?;
        if ledger.timestamp > meta.due_date {
            return Err(Stop::Error(InvoiceError::PastDueDate));
        }
        require_not_negative(amount)
    }

    /// Works out a transfer, and stops if the tokens cannot move.
    fn plan_movement(
        &self,
        exempt: bool,
        replies: &Replies,
        from: Address,
        to: Address,
        amount: i128,
    ) -> (result: Result<Movement, Stop>)
        requires
            self@.meta is Some,
            amount >= 0,
        ensures
            verdict_of(result) == fee_fits(self@.meta->0, amount).and_next(
                movable(self@, exempt, *replies, from, to, amount),
            ),
            result matches Ok(movement) ==> {
                let fee = fee_on(self@, amount);
                let debited = debited(self@.balances, from, amount as int);
                let paid = paid(self@.balances, from, to, amount, fee);
                &&& movement.fee == fee
                &&& movement.from_balance == self@.balance(from) - amount
                &&& movement.to_balance == held(debited, to) + amount - fee
                &&& movement.recipient == if fee > 0 {
                    let recipient = fee_recipient(self@);
                    Some((recipient, (held(paid, recipient) + fee) as i128))
                } else {
                    None
                }
            },
    {
        let meta = self.require_meta()?;
        let fee: i128 = transfer_fee(meta, amount)?;
        let balance: i128 = self.balance(from);
        if balance < amount {
            return Err(Stop::Error(InvoiceError::InsufficientBalance));
        }
        let from_balance: i128 = balance - amount;
        let to_held: i128 = if to == from {
            from_balance
        } else {
            self.balance(to)
        };
        let to_balance: i128 = sum(to_held, amount - fee)?;
        let recipient: Option<(Address, i128)> = match meta.fee_recipient {
            Some(recipient) => {
                if fee > 0 {
                    if !exempt {
                        require_fee_compliance(replies, from, recipient, fee)?;
                    }
                    let recipient_held: i128 = if recipient == to {
                        to_balance
                    } else if recipient == from {
                        from_balance
                    } else {
                        self.balance(recipient)
                    };
                    let recipient_balance: i128 = sum(recipient_held, fee)?;
                    Some((recipient, recipient_balance))
                } else {
                    None
                }
            },
            None => None,
        };
        Ok(Movement { fee, from_balance, to_balance, recipient })
    }

    /// Fixes what the sender may redeem, where a transfer does so.
    fn fix_entitlement(&mut self, id: &ByteString, from: Address, log: &mut EffectLog)
        ensures
            final(self)@ == entitled(old(self)@, from),
            final(log)@ == if fixes_entitlement(old(self)@) {
                old(log)@.push(store(DataKey::SettledEntitlement(id@, from), true))
            } else {
                old(log)@
            },
    {
        if self.status == InvoiceStatus::PartiallySettled && self.supply > 0
            && self.settlement > 0 {
            let worth: u128 = settlement_share(self.balance(from), self.settlement, self.supply);
            let computed: i128 = to_signed(worth);
            let entitlement: i128 = match self.entitlement(from) {
                None => computed,
                Some(existing) => min(existing, computed),
            };
            self.entitlements.insert(from, entitlement);
            log.store(DataKey::SettledEntitlement(id.copy(), from), true);
        }
    }

    /// Carries a transfer out.
    fn carry_out(
        &mut self,
        movement: Movement,
        exempt: bool,
        id: &ByteString,
        from: Address,
        to: Address,
        amount: i128,
        log: &mut EffectLog,
    )
        requires
            fee_on(old(self)@, amount) == movement.fee,
            movement.from_balance == old(self)@.balance(from) - amount,
            movement.to_balance == held(debited(old(self)@.balances, from, amount as int), to)
                + amount - movement.fee,
            movement.recipient == if movement.fee > 0 {
                let recipient = fee_recipient(old(self)@);
                Some(
                    (
                        recipient,
                        (held(
                            paid(old(self)@.balances, from, to, amount, movement.fee as int),
                            recipient,
                        ) + movement.fee) as i128,
                    ),
                )
            } else {
                None
            },
        ensures
            final(self)@ == transferred(old(self)@, from, to, amount),
            final(log)@ == with_transfer(old(log)@, old(self)@, exempt, id@, from, to, amount),
    {
        self.fix_entitlement(id, from, log);
        self.balances.insert(from, movement.from_balance);
        log.store(DataKey::Balance(from, id.copy()), true);
        self.balances.insert(to, movement.to_balance);
        log.store(DataKey::Balance(to, id.copy()), true);
        if let Some((recipient, recipient_balance)) = movement.recipient {
            if exempt {
                log.publish(Event::FeeCheckSkipped(recipient));
            }
            self.balances.insert(recipient, recipient_balance);
            log.store(DataKey::Balance(recipient, id.copy()), true);
            log.push(Effect::RegisterHolder(recipient));
        }
        log.push(Effect::RegisterHolder(to));
        log.publish(Event::Transferred { from, to, invoice_id: id.copy(), amount });
    }

    /// Moves tokens from `from`, who has to authorize it, to `to`.
    pub fn transfer(
        &mut self,
        exempt: bool,
        ledger: &Ledger,
        replies: &Replies,
        id: &ByteString,
        from: Address,
        to: Address,
        amount: i128,
    ) -> (result: Result<EffectLog, Stop>)
        ensures
            verdict_of(result) == transfer_verdict(
                old(self)@,
                exempt,
                *ledger,
                *replies,
                from,
                to,
                amount,
            ),
            result is Err ==> final(self)@ == old(self)@,
            result matches Ok(log) ==> {
                &&& final(self)@ == transferred(old(self)@, from, to, amount)
                &&& log@ == transfer_effects(old(self)@, exempt, id@, from, to, amount)
            },
    {
        require_auth(replies, from)?;
        self.require_open(ledger, amount)?;
        require_compliance(replies, from, to, amount)?;
        let movement = self.plan_movement(exempt, replies, from, to, amount)?;
        let mut log = EffectLog::new();
        log.push(Effect::ExtendInstance);
        self.carry_out(movement, exempt, id, from, to, amount, &mut log);
        Ok(log)
    }

    /// Moves tokens from `from` to `to`, by the allowance of `spender`, who has to
    /// authorize it.
    pub fn transfer_from(
        &mut self,
        exempt: bool,
        ledger: &Ledger,
        replies: &Replies,
        id: &ByteString,
        spender: Address,
        from: Address,
        to: Address,
        amount: i128,
    ) -> (result: Result<EffectLog, Stop>)
        ensures
            verdict_of(result) == transfer_from_verdict(
                old(self)@,
                exempt,
                *ledger,
                *replies,
                spender,
                from,
                to,
                amount,
            ),
            result is Err ==> final(self)@ == old(self)@,
            result matches Ok(log) ==> {
                &&& final(self)@ == transferred(
                    spent(old(self)@, from, spender, amount),
                    from,
                    to,
                    amount,
                )
                &&& log@ == transfer_from_effects(
                    old(self)@,
                    exempt,
                    id@,
                    spender,
                    from,
                    to,
                    amount,
                )
            },
    {
        require_auth(replies, spender)?;
        self.require_open(ledger, amount)?;
        require_compliance(replies, from, to, amount)?;
        let allowance = self.allowance(from, spender);
        if allowance.expiration_ledger < ledger.sequence {
            return Err(Stop::Error(InvoiceError::AllowanceExpired));
        }
        if allowance.amount < amount {
            return Err(Stop::Error(InvoiceError::InsufficientAllowance));
        }
        let movement = self.plan_movement(exempt, replies, from, to, amount)?;
        let mut log = EffectLog::new();
        self.allowances.insert(
            (from, spender),
            AllowanceValue {
                amount: allowance.amount - amount,
                expiration_ledger: allowance.expiration_ledger,
            },
        );
        log.store(DataKey::Allowance(from, spender, id.copy()), false);
        self.carry_out(movement, exempt, id, from, to, amount, &mut log);
        Ok(log)
    }
}

impl InvoiceToken {
    /// Moves tokens of an invoice from `from`, who has to authorize it, to `to`. Blocked
    /// before issuance, after full settlement and after the due date. During partial
    /// settlement, what the sender may redeem is fixed before the balances change.
    pub fn transfer(
        &mut self,
        ledger: &Ledger,
        replies: &Replies,
        invoice_id: &ByteString,
        from: Address,
        to: Address,
        amount: i128,
    ) -> (result: Result<EffectLog, Stop>)
        ensures
            verdict_of(result) == transfer_verdict(
                old(self)@.invoices[invoice_id@],
                old(self)@.fee_recipient_exempt,
                *ledger,
                *replies,
                from,
                to,
                amount,
            ),
            result is Err ==> final(self)@ == old(self)@,
            result matches Ok(log) ==> {
                let invoice = old(self)@.invoices[invoice_id@];
                &&& final(self)@ == old(self)@.with_invoice(
                    invoice_id@,
                    transferred(invoice, from, to, amount),
                )
                &&& log@ == transfer_effects(
                    invoice,
                    old(self)@.fee_recipient_exempt,
                    invoice_id@,
                    from,
                    to,
                    amount,
                )
            },
            leads_to(
                old(self)@,
                (Occasion {
                    ledger: *ledger,
                    replies: *replies,
                    call: TokenCall::OnInvoice {
                        id: invoice_id@,
                        call: InvoiceCall::Transfer { from, to, amount },
                    },
                }),
                result,
                final(self)@,
            ),
    {
        let mut invoice = self.take_invoice(invoice_id);
        let exempt = self.fee_recipient_exempt;
        let result = invoice.transfer(exempt, ledger, replies, invoice_id, from, to, amount);
        self.put_invoice(invoice_id, invoice);
        assert(self@ =~= old(self)@.with_invoice(invoice_id@, invoice@));
        assert(result is Err ==> self@ =~= old(self)@);
        result
    }

    /// Moves tokens of an invoice from `from` to `to`, by the allowance of `spender`, who
    /// has to authorize it. Blocked as a direct transfer is.
    pub fn transfer_from(
        &mut self,
        ledger: &Ledger,
        replies: &Replies,
        spender: Address,
        invoice_id: &ByteString,
        from: Address,
        to: Address,
        amount: i128,
    ) -> (result: Result<EffectLog, Stop>)
        ensures
            verdict_of(result) == transfer_from_verdict(
                old(self)@.invoices[invoice_id@],
                old(self)@.fee_recipient_exempt,
                *ledger,
                *replies,
                spender,
                from,
                to,
                amount,
            ),
            result is Err ==> final(self)@ == old(self)@,
            result matches Ok(log) ==> {
                let invoice = old(self)@.invoices[invoice_id@];
                &&& final(self)@ == old(self)@.with_invoice(
                    invoice_id@,
                    transferred(spent(invoice, from, spender, amount), from, to, amount),
                )
                &&& log@ == transfer_from_effects(
                    invoice,
                    old(self)@.fee_recipient_exempt,
                    invoice_id@,
                    spender,
                    from,
                    to,
                    amount,
                )
            },
            leads_to(
                old(self)@,
                (Occasion {
                    ledger: *ledger,
                    replies: *replies,
                    call: TokenCall::OnInvoice {
                        id: invoice_id@,
                        call: InvoiceCall::TransferFrom { spender, from, to, amount },
                    },
                }),
                result,
                final(self)@,
            ),
    {
        let mut invoice = self.take_invoice(invoice_id);
        let exempt = self.fee_recipient_exempt;
        let result = invoice.transfer_from(
            exempt,
            ledger,
            replies,
            invoice_id,
            spender,
            from,
            to,
            amount,
        );
        self.put_invoice(invoice_id, invoice);
        assert(self@ =~= old(self)@.with_invoice(invoice_id@, invoice@));
        assert(result is Err ==> self@ =~= old(self)@);
        result
    }
}

} // verus!
