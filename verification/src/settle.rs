//! Issuance and settlement.

use crate::effect::{store, Effect, EffectLog, Event};
use crate::history::{
    leads_to, token_effects, token_step, token_verdict, InvoiceCall, Occasion, TokenCall,
};
use crate::invoice::{has_meta, with_transition, Invoice, InvoiceView};
use crate::step::{
    admin_authorizes, ensure, fits, kyc_approves, not_negative, require_admin, require_kyc,
    require_not_negative, sum, verdict_of, InTurn, Replies, Stop, Verdict,
};
use crate::text::ByteString;
use crate::token::{InvoiceToken, TokenView};
use crate::transfer::credited;
use crate::types::{
    Address, BatchSettleResult, DataKey, InvoiceError, InvoiceStatus, Ledger,
};
use vstd::prelude::*;

verus! {

/// Whether settlement has not begun.
pub open spec fn unsettled(status: InvoiceStatus) -> bool {
    status is Created || status is Issued
}

/// Whether settlement has not begun.
pub(crate) fn is_unsettled(status: InvoiceStatus) -> (yes: bool)
    ensures
        yes == unsettled(status),
{
    match status {
        InvoiceStatus::Created | InvoiceStatus::Issued => true,
        _ => false,
    }
}

// ---- Issuance ----

/// Whether tokens can be issued: the supply may not exceed the face value.
pub open spec fn issue_verdict(
    invoice: InvoiceView,
    replies: Replies,
    to: Address,
    amount: i128,
) -> Verdict {
    admin_authorizes(replies).and_next(kyc_approves(replies, to)).and_next(
        ensure(unsettled(invoice.status), InvoiceError::AlreadySettled),
    ).and_next(has_meta(invoice)).and_next(fits(invoice.supply + amount)).and_next(
        ensure(
            invoice.supply + amount <= invoice.meta->0.face_value_usd,
            InvoiceError::OverSettlement,
        ),
    ).and_next(not_negative(amount)).and_next(fits(invoice.balance(to) + amount))
}

/// Whether issuance mints the first tokens.
pub open spec fn opens(invoice: InvoiceView, amount: i128) -> bool {
    invoice.status is Created && amount > 0
}

/// The invoice after the first tokens have been noted.
pub open spec fn opened(invoice: InvoiceView, ledger: Ledger, amount: i128) -> InvoiceView {
    if opens(invoice, amount) {
        invoice.moved_to(InvoiceStatus::Issued, ledger)
    } else {
        invoice
    }
}

/// The invoice after issuance.
pub open spec fn issued(
    invoice: InvoiceView,
    ledger: Ledger,
    to: Address,
    amount: i128,
) -> InvoiceView {
    InvoiceView {
        balances: credited(invoice.balances, to, amount as int),
        supply: (invoice.supply + amount) as i128,
        ..opened(invoice, ledger, amount)
    }
}

/// The effects of issuance.
pub open spec fn issue_effects(
    invoice: InvoiceView,
    id: Seq<u8>,
    to: Address,
    amount: i128,
) -> Seq<Effect<Seq<u8>>> {
    let instance = seq![Effect::ExtendInstance];
    let opening = if opens(invoice, amount) {
        with_transition(instance, id)
    } else {
        instance
    };
    opening.push(store(DataKey::Balance(to, id), true)).push(Effect::RegisterHolder(to)).push(
        store(DataKey::TotalSupply(id), true),
    ).push(
        Effect::Publish(
            Event::Issued {
                to,
                invoice_id: id,
                amount,
                webhook: invoice.meta->0.notification_webhook,
            },
        ),
    )
}

// ---- Settlement ----

/// The invoice with a payment of this amount on record.
pub open spec fn settled(
    invoice: InvoiceView,
    ledger: Ledger,
    to: InvoiceStatus,
    amount: i128,
) -> InvoiceView {
    InvoiceView { settlement: amount, dust: Some(amount), ..invoice.moved_to(to, ledger) }
}

/// `effects`, followed by those of putting a payment on record.
pub open spec fn with_settlement(effects: Seq<Effect<Seq<u8>>>, id: Seq<u8>) -> Seq<
    Effect<Seq<u8>>,
> {
    with_transition(effects, id).push(store(DataKey::SettlementAmount(id), true)).push(
        store(DataKey::RedemptionDust(id), true),
    )
}

/// Whether an invoice can be settled in full.
pub open spec fn settle_verdict(invoice: InvoiceView, paused: bool, replies: Replies) -> Verdict {
    admin_authorizes(replies).and_next(ensure(!paused, InvoiceError::LifecyclePaused)).and_next(
        has_meta(invoice),
    ).and_next(
        ensure(
            !(invoice.status is FullySettled || invoice.status is Redeemed),
            InvoiceError::AlreadySettled,
        ),
    )
}

/// The invoice after full settlement.
pub open spec fn fully_settled(invoice: InvoiceView, ledger: Ledger) -> InvoiceView {
    settled(invoice, ledger, InvoiceStatus::FullySettled, invoice.meta->0.face_value_usd)
}

/// The effects of full settlement.
pub open spec fn settle_effects(invoice: InvoiceView, id: Seq<u8>) -> Seq<Effect<Seq<u8>>> {
    with_settlement(seq![Effect::ExtendInstance], id).push(
        Effect::Publish(
            Event::Settled {
                invoice_id: id,
                webhook: invoice.meta->0.notification_webhook,
            },
        ),
    )
}

/// The payment is more than nothing.
pub open spec fn positive_payment(amount: i128) -> Verdict {
    ensure(amount > 0, InvoiceError::UnderSettlement)
}

/// The payment is at most the face value, and the first one.
pub open spec fn acceptable_payment(invoice: InvoiceView, amount: i128) -> Verdict {
    ensure(
        amount <= invoice.meta->0.face_value_usd,
        InvoiceError::OverSettlement,
    ).and_next(ensure(unsettled(invoice.status), InvoiceError::AlreadySettled))
}

/// Whether a payment can be put on record.
pub open spec fn partial_settle_verdict(
    invoice: InvoiceView,
    paused: bool,
    replies: Replies,
    amount: i128,
) -> Verdict {
    admin_authorizes(replies).and_next(ensure(!paused, InvoiceError::LifecyclePaused)).and_next(
        positive_payment(amount),
    ).and_next(has_meta(invoice)).and_next(acceptable_payment(invoice, amount))
}

/// The state that a payment leads to.
pub open spec fn state_after_payment(invoice: InvoiceView, amount: i128) -> InvoiceStatus {
    if amount == invoice.meta->0.face_value_usd {
        InvoiceStatus::FullySettled
    } else {
        InvoiceStatus::PartiallySettled
    }
}

/// The invoice after a payment.
pub open spec fn partially_settled(
    invoice: InvoiceView,
    ledger: Ledger,
    amount: i128,
) -> InvoiceView {
    settled(invoice, ledger, state_after_payment(invoice, amount), amount)
}

/// `effects`, followed by those of a payment.
pub open spec fn with_payment(
    effects: Seq<Effect<Seq<u8>>>,
    id: Seq<u8>,
    amount: i128,
) -> Seq<Effect<Seq<u8>>> {
    with_settlement(effects, id).push(
        Effect::Publish(Event::PartiallySettled { invoice_id: id, amount }),
    )
}

// ---- Settlement in batches ----

/// At most this many settlements of a batch are processed.
pub const BATCH_LIMIT: usize = 10;

/// How many settlements of a batch are processed.
pub open spec fn batch_size(settlements: nat) -> nat {
    if settlements > BATCH_LIMIT {
        BATCH_LIMIT as nat
    } else {
        settlements
    }
}

/// The error of one settlement of a batch.
pub open spec fn batch_error(
    invoice: InvoiceView,
    paused: bool,
    amount: i128,
) -> Option<InvoiceError> {
    if paused {
        Some(InvoiceError::LifecyclePaused)
    } else if amount <= 0 {
        Some(InvoiceError::UnderSettlement)
    } else if invoice.meta is None {
        Some(InvoiceError::InvoiceNotFound)
    } else if amount > invoice.meta->0.face_value_usd {
        Some(InvoiceError::OverSettlement)
    } else if !unsettled(invoice.status) {
        Some(InvoiceError::AlreadySettled)
    } else {
        None
    }
}

/// What a batch has led to.
pub struct BatchState {
    pub token: TokenView,
    pub results: Seq<BatchSettleResult<Seq<u8>>>,
    pub effects: Seq<Effect<Seq<u8>>>,
}

/// What one settlement of a batch adds.
pub open spec fn batch_step(
    state: BatchState,
    ledger: Ledger,
    id: Seq<u8>,
    amount: i128,
) -> BatchState {
    let invoice = state.token.invoices[id];
    match batch_error(invoice, state.token.paused, amount) {
        Some(error) => BatchState {
            results: state.results.push(
                BatchSettleResult { invoice_id: id, error: Some(error.spec_code()) },
            ),
            ..state
        },
        None => BatchState {
            token: state.token.with_invoice(id, partially_settled(invoice, ledger, amount)),
            results: state.results.push(BatchSettleResult { invoice_id: id, error: None }),
            effects: with_payment(state.effects, id, amount),
        },
    }
}

/// What the first `count` settlements of a batch lead to. One that fails leaves the token
/// as it was, and the next is processed all the same.
pub open spec fn batch_state(
    token: TokenView,
    ledger: Ledger,
    settlements: Seq<(Seq<u8>, i128)>,
    count: nat,
) -> BatchState
    decreases count,
{
    if count == 0 {
        BatchState { token, results: Seq::empty(), effects: seq![Effect::ExtendInstance] }
    } else {
        let (id, amount) = settlements[count - 1];
        batch_step(
            batch_state(token, ledger, settlements, (count - 1) as nat),
            ledger,
            id,
            amount,
        )
    }
}

/// The content of the settlements of a batch.
pub open spec fn settlements_view(settlements: Seq<(ByteString, i128)>) -> Seq<(Seq<u8>, i128)> {
    settlements.map_values(|settlement: (ByteString, i128)| (settlement.0@, settlement.1))
}

/// The content of the results of a batch.
pub open spec fn results_view(results: Seq<BatchSettleResult>) -> Seq<BatchSettleResult<Seq<u8>>> {
    results.map_values(|result: BatchSettleResult| result@)
}

// ---- Code ----

impl Invoice {
    /// Gives tokens to `to`, if the administrator authorizes it.
    pub fn issue(
        &mut self,
        ledger: &Ledger,
        replies: &Replies,
        id: &ByteString,
        to: Address,
        amount: i128,
    ) -> (result: Result<EffectLog, Stop>)
        ensures
            verdict_of(result) == issue_verdict(old(self)@, *replies, to, amount),
            result is Err ==> final(self)@ == old(self)@,
            result matches Ok(log) ==> {
                &&& final(self)@ == issued(old(self)@, *ledger, to, amount)
                &&& log@ == issue_effects(old(self)@, id@, to, amount)
            },
    {
        require_admin(replies)?;
        require_kyc(replies, to)?;
        if !is_unsettled(self.status) {
            return Err(Stop::Error(InvoiceError::AlreadySettled));
        }
        let meta = self.require_meta()?;
        let supply: i128 = sum(self.supply, amount)?;
        if supply > meta.face_value_usd {
            return Err(Stop::Error(InvoiceError::OverSettlement));
        }
        require_not_negative(amount)?;
        let balance: i128 = sum(self.balance(to), amount)?;
        let webhook = meta.notification_webhook.copy();
        let mut log = EffectLog::new();
        log.push(Effect::ExtendInstance);
        if self.status == InvoiceStatus::Created && amount > 0 {
            self.transition_status(ledger, id, InvoiceStatus::Issued, &mut log);
        }
        self.balances.insert(to, balance);
        log.store(DataKey::Balance(to, id.copy()), true);
        log.push(Effect::RegisterHolder(to));
        self.supply = supply;
        log.store(DataKey::TotalSupply(id.copy()), true);
        log.publish(Event::Issued { to, invoice_id: id.copy(), amount, webhook });
        Ok(log)
    }

    /// Puts a payment on record.
    fn record_settlement(
        &mut self,
        ledger: &Ledger,
        id: &ByteString,
        to: InvoiceStatus,
        amount: i128,
        log: &mut EffectLog,
    )
        ensures
            final(self)@ == settled(old(self)@, *ledger, to, amount),
            final(log)@ == with_settlement(old(log)@, id@),
    {
        self.transition_status(ledger, id, to, log);
        self.settlement = amount;
        log.store(DataKey::SettlementAmount(id.copy()), true);
        self.dust = Some(amount);
        log.store(DataKey::RedemptionDust(id.copy()), true);
    }

    /// Settles the invoice in full, if the administrator authorizes it.
    pub fn settle(&mut self, paused: bool, ledger: &Ledger, replies: &Replies, id: &ByteString) -> (
    result: Result<EffectLog, Stop>)
        ensures
            verdict_of(result) == settle_verdict(old(self)@, paused, *replies),
            result is Err ==> final(self)@ == old(self)@,
            result matches Ok(log) ==> {
                &&& final(self)@ == fully_settled(old(self)@, *ledger)
                &&& log@ == settle_effects(old(self)@, id@)
            },
    {
        require_admin(replies)?;
        if paused {
            return Err(Stop::Error(InvoiceError::LifecyclePaused));
        }
        let meta = self.require_meta()?;
        let face_value: i128 = meta.face_value_usd;
        let webhook = meta.notification_webhook.copy();
        match self.status {
            InvoiceStatus::FullySettled | InvoiceStatus::Redeemed => {
                return Err(Stop::Error(InvoiceError::AlreadySettled));
            },
            _ => {},
        }
        let mut log = EffectLog::new();
        log.push(Effect::ExtendInstance);
        self.record_settlement(ledger, id, InvoiceStatus::FullySettled, face_value, &mut log);
        log.publish(Event::Settled { invoice_id: id.copy(), webhook });
        Ok(log)
    }

    /// Puts an acceptable payment on record.
    fn record_payment(
        &mut self,
        ledger: &Ledger,
        id: &ByteString,
        face_value: i128,
        amount: i128,
        log: &mut EffectLog,
    )
        requires
            old(self)@.meta is Some,
            old(self)@.meta->0.face_value_usd == face_value,
        ensures
            final(self)@ == partially_settled(old(self)@, *ledger, amount),
            final(log)@ == with_payment(old(log)@, id@, amount),
    {
        let to = if amount == face_value {
            InvoiceStatus::FullySettled
        } else {
            InvoiceStatus::PartiallySettled
        };
        self.record_settlement(ledger, id, to, amount, log);
        log.publish(Event::PartiallySettled { invoice_id: id.copy(), amount });
    }

    /// Puts a payment on record, if the administrator authorizes it.
    pub fn partial_settle(
        &mut self,
        paused: bool,
        ledger: &Ledger,
        replies: &Replies,
        id: &ByteString,
        amount: i128,
    ) -> (result: Result<EffectLog, Stop>)
        ensures
            verdict_of(result) == partial_settle_verdict(old(self)@, paused, *replies, amount),
            result is Err ==> final(self)@ == old(self)@,
            result matches Ok(log) ==> {
                &&& final(self)@ == partially_settled(old(self)@, *ledger, amount)
                &&& log@ == with_payment(seq![Effect::ExtendInstance], id@, amount)
            },
    {
        require_admin(replies)?;
        if paused {
            return Err(Stop::Error(InvoiceError::LifecyclePaused));
        }
        if amount <= 0 {
            return Err(Stop::Error(InvoiceError::UnderSettlement));
        }
        let face_value: i128 = self.require_meta()?.face_value_usd;
        if amount > face_value {
            return Err(Stop::Error(InvoiceError::OverSettlement));
        }
        if !is_unsettled(self.status) {
            return Err(Stop::Error(InvoiceError::AlreadySettled));
        }
        let mut log = EffectLog::new();
        log.push(Effect::ExtendInstance);
        self.record_payment(ledger, id, face_value, amount, &mut log);
        Ok(log)
    }

    /// Puts a payment of a batch on record. Gives nothing on success, the code of the
    /// error on failure.
    pub fn try_do_partial_settle(
        &mut self,
        paused: bool,
        ledger: &Ledger,
        id: &ByteString,
        amount: i128,
        log: &mut EffectLog,
    ) -> (error: Option<u32>)
        ensures
            error == match batch_error(old(self)@, paused, amount) {
                Some(error) => Some(error.spec_code()),
                None => None,
            },
            error is Some ==> final(self)@ == old(self)@ && final(log)@ == old(log)@,
            error is None ==> {
                &&& final(self)@ == partially_settled(old(self)@, *ledger, amount)
                &&& final(log)@ == with_payment(old(log)@, id@, amount)
            },
    {
        if paused {
            return Some(InvoiceError::LifecyclePaused.code());
        }
        if amount <= 0 {
            return Some(InvoiceError::UnderSettlement.code());
        }
        let face_value: i128 = match &self.meta {
            None => {
                return Some(InvoiceError::InvoiceNotFound.code());
            },
            Some(meta) => meta.face_value_usd,
        };
        if amount > face_value {
            return Some(InvoiceError::OverSettlement.code());
        }
        if !is_unsettled(self.status) {
            return Some(InvoiceError::AlreadySettled.code());
        }
        self.record_payment(ledger, id, face_value, amount, log);
        None
    }
}

impl InvoiceToken {
    /// Issues tokens of an invoice to `to`, whom the KYC registry has to approve, up to
    /// the face value. The first tokens open the invoice. For the administrator, and only
    /// before settlement.
    pub fn issue(
        &mut self,
        ledger: &Ledger,
        replies: &Replies,
        invoice_id: &ByteString,
        to: Address,
        amount: i128,
    ) -> (result: Result<EffectLog, Stop>)
        ensures
            verdict_of(result) == issue_verdict(
                old(self)@.invoices[invoice_id@],
                *replies,
                to,
                amount,
            ),
            result is Err ==> final(self)@ == old(self)@,
            result matches Ok(log) ==> {
                let invoice = old(self)@.invoices[invoice_id@];
                &&& final(self)@ == old(self)@.with_invoice(
                    invoice_id@,
                    issued(invoice, *ledger, to, amount),
                )
                &&& log@ == issue_effects(invoice, invoice_id@, to, amount)
            },
            leads_to(
                old(self)@,
                (Occasion {
                    ledger: *ledger,
                    replies: *replies,
                    call: TokenCall::OnInvoice {
                        id: invoice_id@,
                        call: InvoiceCall::Issue { to, amount },
                    },
                }),
                result,
                final(self)@,
            ),
    {
        let mut invoice = self.take_invoice(invoice_id);
        let result = invoice.issue(ledger, replies, invoice_id, to, amount);
        self.put_invoice(invoice_id, invoice);
        assert(self@ =~= old(self)@.with_invoice(invoice_id@, invoice@));
        assert(result is Err ==> self@ =~= old(self)@);
        result
    }

    /// Marks an invoice as fully settled: the settlement is the face value. For the
    /// administrator.
    pub fn settle(
        &mut self,
        ledger: &Ledger,
        replies: &Replies,
        invoice_id: &ByteString,
    ) -> (result: Result<EffectLog, Stop>)
        ensures
            verdict_of(result) == settle_verdict(
                old(self)@.invoices[invoice_id@],
                old(self)@.paused,
                *replies,
            ),
            result is Err ==> final(self)@ == old(self)@,
            result matches Ok(log) ==> {
                let invoice = old(self)@.invoices[invoice_id@];
                &&& final(self)@ == old(self)@.with_invoice(
                    invoice_id@,
                    fully_settled(invoice, *ledger),
                )
                &&& log@ == settle_effects(invoice, invoice_id@)
            },
            leads_to(
                old(self)@,
                (Occasion {
                    ledger: *ledger,
                    replies: *replies,
                    call: TokenCall::OnInvoice { id: invoice_id@, call: InvoiceCall::Settle },
                }),
                result,
                final(self)@,
            ),
    {
        let mut invoice = self.take_invoice(invoice_id);
        let result = invoice.settle(self.paused, ledger, replies, invoice_id);
        self.put_invoice(invoice_id, invoice);
        assert(self@ =~= old(self)@.with_invoice(invoice_id@, invoice@));
        assert(result is Err ==> self@ =~= old(self)@);
        result
    }

    /// Marks an invoice as settled with a payment, in part or, if it is the face value, in
    /// full. For the administrator.
    pub fn partial_settle(
        &mut self,
        ledger: &Ledger,
        replies: &Replies,
        invoice_id: &ByteString,
        settlement_amount: i128,
    ) -> (result: Result<EffectLog, Stop>)
        ensures
            verdict_of(result) == partial_settle_verdict(
                old(self)@.invoices[invoice_id@],
                old(self)@.paused,
                *replies,
                settlement_amount,
            ),
            result is Err ==> final(self)@ == old(self)@,
            result matches Ok(log) ==> {
                let invoice = old(self)@.invoices[invoice_id@];
                &&& final(self)@ == old(self)@.with_invoice(
                    invoice_id@,
                    partially_settled(invoice, *ledger, settlement_amount),
                )
                &&& log@ == with_payment(
                    seq![Effect::ExtendInstance],
                    invoice_id@,
                    settlement_amount,
                )
            },
            leads_to(
                old(self)@,
                (Occasion {
                    ledger: *ledger,
                    replies: *replies,
                    call: TokenCall::OnInvoice {
                        id: invoice_id@,
                        call: InvoiceCall::PartialSettle { amount: settlement_amount },
                    },
                }),
                result,
                final(self)@,
            ),
    {
        let mut invoice = self.take_invoice(invoice_id);
        let result = invoice.partial_settle(
            self.paused,
            ledger,
            replies,
            invoice_id,
            settlement_amount,
        );
        self.put_invoice(invoice_id, invoice);
        assert(self@ =~= old(self)@.with_invoice(invoice_id@, invoice@));
        assert(result is Err ==> self@ =~= old(self)@);
        result
    }

    /// Puts the payments of up to ten invoices on record, for the administrator. One that
    /// fails is reported in its result, and the next is processed all the same.
    pub fn batch_settle(
        &mut self,
        ledger: &Ledger,
        replies: &Replies,
        settlements: &Vec<(ByteString, i128)>,
    ) -> (result: Result<(Vec<BatchSettleResult>, EffectLog), Stop>)
        ensures
            verdict_of(result) == admin_authorizes(*replies),
            result is Err ==> final(self)@ == old(self)@,
            result matches Ok((results, log)) ==> {
                let state = batch_state(
                    old(self)@,
                    *ledger,
                    settlements_view(settlements@),
                    batch_size(settlements@.len()),
                );
                &&& final(self)@ == state.token
                &&& results_view(results@) == state.results
                &&& log@ == state.effects
            },
            ({
                let o = Occasion {
                    ledger: *ledger,
                    replies: *replies,
                    call: TokenCall::BatchSettle { settlements: settlements_view(settlements@) },
                };
                &&& verdict_of(result) == token_verdict(old(self)@, o)
                &&& final(self)@ == token_step(old(self)@, o)
                &&& result matches Ok((_, log)) ==> log@ == token_effects(old(self)@, o)
            }),
    {
        require_admin(replies)?;
        let effective: usize = if settlements.len() > BATCH_LIMIT {
            BATCH_LIMIT
        } else {
            settlements.len()
        };
        let mut results: Vec<BatchSettleResult> = Vec::new();
        let mut log = EffectLog::new();
        log.push(Effect::ExtendInstance);
        let ghost token = self@;
        let ghost plain = settlements_view(settlements@);
        let mut i: usize = 0;
        assert(results_view(results@) =~= Seq::<BatchSettleResult<Seq<u8>>>::empty());
        while i < effective
            invariant
                i <= effective <= settlements.len(),
                plain == settlements_view(settlements@),
                self@ == batch_state(token, *ledger, plain, i as nat).token,
                results_view(results@) == batch_state(token, *ledger, plain, i as nat).results,
                log@ == batch_state(token, *ledger, plain, i as nat).effects,
            decreases effective - i,
        {
            let ghost before = batch_state(token, *ledger, plain, i as nat);
            let invoice_id = &settlements[i].0;
            let amount: i128 = settlements[i].1;
            assert(plain[i as int] == (invoice_id@, amount));
            let mut invoice = self.take_invoice(invoice_id);
            let error = invoice.try_do_partial_settle(
                self.paused,
                ledger,
                invoice_id,
                amount,
                &mut log,
            );
            self.put_invoice(invoice_id, invoice);
            assert(self@ =~= before.token.with_invoice(invoice_id@, invoice@));
            assert(error is Some ==> self@ =~= before.token);
            let ghost reported = results@;
            results.push(BatchSettleResult { invoice_id: invoice_id.copy(), error });
            assert(results_view(results@) =~= results_view(reported).push(
                BatchSettleResult { invoice_id: invoice_id@, error },
            ));
            i = i + 1;
        }
        Ok((results, log))
    }
}

} // verus!
