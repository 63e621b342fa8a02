//! Administration: the contract itself, its invoices, and allowances.

use crate::effect::{store, Effect, EffectLog, Event};
use crate::history::{leads_to, InvoiceCall, Occasion, TokenCall};
use crate::invoice::InvoiceView;
use crate::settle::{is_unsettled, unsettled};
use crate::step::{
    admin_authorizes, authorizes, compliance_allows, ensure, kyc_approves, not_negative,
    require_admin, require_auth, require_compliance, require_kyc, require_not_negative, verdict_of,
    InTurn, Query, Replies, Stop, Verdict,
};
use crate::text::ByteString;
use crate::token::{InvoiceToken, TokenView};
use crate::types::{
    Address, AllowanceValue, DataKey, InvoiceError, InvoiceMeta, InvoiceStatus, Ledger,
};
use vstd::prelude::*;

verus! {

// ---- Metadata ----

/// How a webhook has to start: `https://`.
pub open spec fn https() -> Seq<u8> {
    seq![0x68, 0x74, 0x74, 0x70, 0x73, 0x3a, 0x2f, 0x2f]
}

/// A webhook is empty, or an https URL of at most 256 bytes.
pub open spec fn valid_webhook(webhook: Seq<u8>) -> bool {
    webhook.len() == 0 || (8 <= webhook.len() <= 256 && webhook.take(8) == https())
}

/// The currency code is valid.
pub open spec fn currency_passes(replies: Replies, currency: Seq<u8>) -> Verdict {
    match replies.currency {
        None => Err(Stop::Ask(Query::Currency(currency))),
        Some(valid) => ensure(valid, InvoiceError::InvalidMetadata),
    }
}

/// The IPFS document hash is valid.
pub open spec fn ipfs_hash_passes(replies: Replies, hash: Seq<u8>) -> Verdict {
    match replies.ipfs_hash {
        None => Err(Stop::Ask(Query::IpfsHash(hash))),
        Some(valid) => ensure(valid, InvoiceError::InvalidMetadata),
    }
}

/// The metadata apart from the webhook can be put on record. A fee of more than the
/// amount is not accepted.
pub open spec fn fields_pass(replies: Replies, meta: InvoiceMeta<Seq<u8>>) -> Verdict {
    currency_passes(replies, meta.currency).and_next(
        ensure(meta.face_value_usd > 0, InvoiceError::InvalidMetadata),
    ).and_next(ipfs_hash_passes(replies, meta.ipfs_doc_hash)).and_next(
        ensure(meta.transfer_fee_bps <= 10_000, InvoiceError::InvalidMetadata),
    )
}

/// The metadata can be put on record.
pub open spec fn meta_passes(replies: Replies, meta: InvoiceMeta<Seq<u8>>) -> Verdict {
    ensure(valid_webhook(meta.notification_webhook), InvoiceError::InvalidWebhook).and_next(
        fields_pass(replies, meta),
    )
}

/// Stops unless the webhook is valid.
pub fn validate_webhook(webhook: &ByteString) -> (result: Result<(), Stop>)
    ensures
        verdict_of(result) == ensure(valid_webhook(webhook@), InvoiceError::InvalidWebhook),
{
    let bytes = &webhook.bytes;
    if bytes.len() == 0 {
        return Ok(());
    }
    if bytes.len() < 8 || bytes.len() > 256 {
        return Err(Stop::Error(InvoiceError::InvalidWebhook));
    }
    let is_https = bytes[0] == 0x68 && bytes[1] == 0x74 && bytes[2] == 0x74 && bytes[3] == 0x70
        && bytes[4] == 0x73 && bytes[5] == 0x3a && bytes[6] == 0x2f && bytes[7] == 0x2f;
    proof {
        let start = webhook@.take(8);
        if is_https {
            assert(start =~= https());
        } else {
            assert(start[0] == webhook@[0] && start[1] == webhook@[1] && start[2] == webhook@[2]
                && start[3] == webhook@[3] && start[4] == webhook@[4] && start[5] == webhook@[5]
                && start[6] == webhook@[6] && start[7] == webhook@[7]);
            assert(start != https());
        }
    }
    if is_https {
        Ok(())
    } else {
        Err(Stop::Error(InvoiceError::InvalidWebhook))
    }
}

/// Stops unless the metadata apart from the webhook can be put on record.
pub fn validate_invoice_meta(replies: &Replies, meta: &InvoiceMeta) -> (result: Result<(), Stop>)
    ensures
        verdict_of(result) == fields_pass(*replies, meta@),
{
    match replies.currency {
        None => {
            return Err(Stop::Ask(Query::Currency(meta.currency.copy())));
        },
        Some(valid) => {
            if !valid {
                return Err(Stop::Error(InvoiceError::InvalidMetadata));
            }
        },
    }
    if meta.face_value_usd <= 0 {
        return Err(Stop::Error(InvoiceError::InvalidMetadata));
    }
    match replies.ipfs_hash {
        None => {
            return Err(Stop::Ask(Query::IpfsHash(meta.ipfs_doc_hash.copy())));
        },
        Some(valid) => {
            if !valid {
                return Err(Stop::Error(InvoiceError::InvalidMetadata));
            }
        },
    }
    if meta.transfer_fee_bps > 10_000 {
        return Err(Stop::Error(InvoiceError::InvalidMetadata));
    }
    Ok(())
}

// ---- Creating and updating invoices ----

/// Whether an invoice with this metadata can be created: once for each id.
pub open spec fn creation_passes(
    token: TokenView,
    replies: Replies,
    meta: InvoiceMeta<Seq<u8>>,
) -> Verdict {
    meta_passes(replies, meta).and_next(
        ensure(
            token.invoices[meta.invoice_id].meta is None,
            InvoiceError::InvoiceAlreadyExists,
        ),
    )
}

/// The record of an invoice that has just been created.
pub open spec fn created_invoice(invoice: InvoiceView, meta: InvoiceMeta<Seq<u8>>) -> InvoiceView {
    InvoiceView {
        meta: Some(meta),
        supply: 0,
        status: InvoiceStatus::Created,
        journal: Seq::empty(),
        ..invoice
    }
}

/// The token with one more invoice.
pub open spec fn created(token: TokenView, meta: InvoiceMeta<Seq<u8>>) -> TokenView {
    let id = meta.invoice_id;
    TokenView {
        invoices_list: token.invoices_list.push(id),
        ..token.with_invoice(id, created_invoice(token.invoices[id], meta))
    }
}

/// `effects`, followed by those of creating an invoice.
pub open spec fn with_creation(effects: Seq<Effect<Seq<u8>>>, id: Seq<u8>) -> Seq<
    Effect<Seq<u8>>,
> {
    effects.push(store(DataKey::InvoiceMeta(id), true)).push(
        store(DataKey::TotalSupply(id), true),
    ).push(store(DataKey::InvoiceStatus(id), true)).push(store(DataKey::Journal(id), true)).push(
        store(DataKey::InvoicesList, false),
    ).push(Effect::Publish(Event::InvoiceCreated(id)))
}

/// Whether the metadata of an invoice can be replaced: before settlement.
pub open spec fn update_meta_verdict(
    invoice: InvoiceView,
    replies: Replies,
    meta: InvoiceMeta<Seq<u8>>,
) -> Verdict {
    admin_authorizes(replies).and_next(meta_passes(replies, meta)).and_next(
        ensure(unsettled(invoice.status), InvoiceError::AlreadySettled),
    )
}

impl InvoiceToken {
    /// Creates an invoice with this metadata.
    fn do_create_invoice(&mut self, replies: &Replies, meta: InvoiceMeta, log: &mut EffectLog) -> (
    result: Result<(), Stop>)
        requires
            old(self)@.invoices_list.len() < u32::MAX,
            meta@.invoice_id.len() <= u32::MAX,
        ensures
            verdict_of(result) == creation_passes(old(self)@, *replies, meta@),
            result is Err ==> final(self)@ == old(self)@,
            result is Ok ==> {
                &&& final(self)@ == created(old(self)@, meta@)
                &&& final(log)@ == with_creation(old(log)@, meta@.invoice_id)
            },
    {
        validate_webhook(&meta.notification_webhook)?;
        validate_invoice_meta(replies, &meta)?;
        let id = meta.invoice_id.copy();
        let mut invoice = self.take_invoice(&id);
        if invoice.meta.is_some() {
            self.put_invoice(&id, invoice);
            assert(self@ =~= old(self)@);
            return Err(Stop::Error(InvoiceError::InvoiceAlreadyExists));
        }
        invoice.meta = Some(meta);
        log.store(DataKey::InvoiceMeta(id.copy()), true);
        invoice.supply = 0;
        log.store(DataKey::TotalSupply(id.copy()), true);
        invoice.status = InvoiceStatus::Created;
        log.store(DataKey::InvoiceStatus(id.copy()), true);
        invoice.journal = Vec::new();
        log.store(DataKey::Journal(id.copy()), true);
        assert(invoice@ =~= created_invoice(old(self)@.invoices[id@], meta@));
        self.put_invoice(&id, invoice);
        self.invoices_list.push(&id);
        log.store(DataKey::InvoicesList, false);
        log.publish(Event::InvoiceCreated(id));
        assert(self@ =~= created(old(self)@, meta@));
        Ok(())
    }

    /// Sets up the contract, with its first invoice.
    pub fn __constructor(
        &mut self,
        replies: &Replies,
        admin: Address,
        kyc_registry: Address,
        compliance_engine: Address,
        meta: InvoiceMeta,
    ) -> (result: Result<EffectLog, Stop>)
        requires
            old(self)@.invoices_list.len() < u32::MAX,
            meta@.invoice_id.len() <= u32::MAX,
        ensures
            verdict_of(result) == creation_passes(old(self)@, *replies, meta@),
            result is Err ==> final(self)@ == old(self)@,
            result matches Ok(log) ==> {
                &&& final(self)@ == created(old(self)@, meta@)
                &&& log@ == with_creation(
                    seq![
                        Effect::WriteAdmin(admin),
                        Effect::WriteKycRegistry(kyc_registry),
                        Effect::WriteComplianceEngine(compliance_engine),
                    ],
                    meta@.invoice_id,
                )
            },
            forall|ledger: Ledger| #[trigger]
                leads_to(
                    old(self)@,
                    (Occasion {
                        ledger,
                        replies: *replies,
                        call: TokenCall::Constructor {
                            admin,
                            kyc_registry,
                            compliance_engine,
                            meta: meta@,
                        },
                    }),
                    result,
                    final(self)@,
                ),
    {
        let mut log = EffectLog::new();
        log.push(Effect::WriteAdmin(admin));
        log.push(Effect::WriteKycRegistry(kyc_registry));
        log.push(Effect::WriteComplianceEngine(compliance_engine));
        self.do_create_invoice(replies, meta, &mut log)?;
        Ok(log)
    }

    /// The contract is set up by its constructor, and never again.
    pub fn initialize(
        &self,
        _admin: Address,
        _kyc_registry: Address,
        _compliance_engine: Address,
        _meta: &InvoiceMeta,
    ) -> (result: Result<EffectLog, Stop>)
        ensures
            verdict_of(result) == Err::<(), Stop<Seq<u8>>>(
                Stop::Error(InvoiceError::AlreadyInitialized),
            ),
    {
        Err(Stop::Error(InvoiceError::AlreadyInitialized))
    }

    /// Creates an invoice. For the administrator.
    pub fn create_invoice(&mut self, replies: &Replies, meta: InvoiceMeta) -> (result: Result<
        EffectLog,
        Stop,
    >)
        requires
            old(self)@.invoices_list.len() < u32::MAX,
            meta@.invoice_id.len() <= u32::MAX,
        ensures
            verdict_of(result) == admin_authorizes(*replies).and_next(
                creation_passes(old(self)@, *replies, meta@),
            ),
            result is Err ==> final(self)@ == old(self)@,
            result matches Ok(log) ==> {
                &&& final(self)@ == created(old(self)@, meta@)
                &&& log@ == with_creation(seq![Effect::ExtendInstance], meta@.invoice_id)
            },
            forall|ledger: Ledger| #[trigger]
                leads_to(
                    old(self)@,
                    (Occasion {
                        ledger,
                        replies: *replies,
                        call: TokenCall::CreateInvoice { meta: meta@ },
                    }),
                    result,
                    final(self)@,
                ),
    {
        require_admin(replies)?;
        let mut log = EffectLog::new();
        log.push(Effect::ExtendInstance);
        self.do_create_invoice(replies, meta, &mut log)?;
        Ok(log)
    }

    /// Replaces the metadata of an invoice. For the administrator, and only before
    /// settlement.
    pub fn update_meta(
        &mut self,
        replies: &Replies,
        invoice_id: &ByteString,
        new_meta: InvoiceMeta,
    ) -> (result: Result<EffectLog, Stop>)
        ensures
            verdict_of(result) == update_meta_verdict(
                old(self)@.invoices[invoice_id@],
                *replies,
                new_meta@,
            ),
            result is Err ==> final(self)@ == old(self)@,
            result matches Ok(log) ==> {
                &&& final(self)@ == old(self)@.with_invoice(
                    invoice_id@,
                    (InvoiceView { meta: Some(new_meta@), ..old(self)@.invoices[invoice_id@] }),
                )
                &&& log@ == seq![
                    store(DataKey::InvoiceMeta(invoice_id@), false),
                    Effect::Publish(Event::MetaUpdated),
                ]
            },
            forall|ledger: Ledger| #[trigger]
                leads_to(
                    old(self)@,
                    (Occasion {
                        ledger,
                        replies: *replies,
                        call: TokenCall::OnInvoice {
                            id: invoice_id@,
                            call: InvoiceCall::UpdateMeta { meta: new_meta@ },
                        },
                    }),
                    result,
                    final(self)@,
                ),
    {
        require_admin(replies)?;
        validate_webhook(&new_meta.notification_webhook)?;
        validate_invoice_meta(replies, &new_meta)?;
        let mut invoice = self.take_invoice(invoice_id);
        if !is_unsettled(invoice.status) {
            self.put_invoice(invoice_id, invoice);
            assert(self@ =~= old(self)@);
            return Err(Stop::Error(InvoiceError::AlreadySettled));
        }
        invoice.meta = Some(new_meta);
        self.put_invoice(invoice_id, invoice);
        assert(self@ =~= old(self)@.with_invoice(invoice_id@, invoice@));
        let mut log = EffectLog::new();
        log.store(DataKey::InvoiceMeta(invoice_id.copy()), false);
        log.publish(Event::MetaUpdated);
        assert(log@ =~= seq![
            store(DataKey::InvoiceMeta(invoice_id@), false),
            Effect::Publish(Event::MetaUpdated),
        ]);
        Ok(log)
    }

    // ---- The contracts and roles around the token ----

    /// Replaces the KYC registry, which the administrator has to authorize.
    pub fn update_kyc_registry(&self, new_registry: Address) -> (log: EffectLog)
        ensures
            log@ == seq![Effect::<Seq<u8>>::UpdateKycRegistry(new_registry)],
    {
        let mut log = EffectLog::new();
        log.push(Effect::UpdateKycRegistry(new_registry));
        log
    }

    /// Replaces the compliance engine, which the administrator has to authorize.
    pub fn update_compliance_engine(&self, new_engine: Address) -> (log: EffectLog)
        ensures
            log@ == seq![Effect::<Seq<u8>>::UpdateComplianceEngine(new_engine)],
    {
        let mut log = EffectLog::new();
        log.push(Effect::UpdateComplianceEngine(new_engine));
        log
    }

    /// Proposes the next administrator, which the administrator has to authorize.
    pub fn propose_admin(&self, new_admin: Address) -> (log: EffectLog)
        ensures
            log@ == seq![Effect::<Seq<u8>>::ProposeAdmin(new_admin)],
    {
        let mut log = EffectLog::new();
        log.push(Effect::ProposeAdmin(new_admin));
        log
    }

    /// Has the proposed administrator take over.
    pub fn accept_admin(&self) -> (log: EffectLog)
        ensures
            log@ == seq![Effect::<Seq<u8>>::AcceptAdmin],
    {
        let mut log = EffectLog::new();
        log.push(Effect::AcceptAdmin);
        log
    }

    /// Sets the fee recipient role of the contract, to an address that the KYC registry
    /// approves and that may transfer to itself. For the administrator.
    pub fn set_fee_recipient(&mut self, replies: &Replies, addr: Address) -> (result: Result<
        EffectLog,
        Stop,
    >)
        ensures
            verdict_of(result) == admin_authorizes(*replies).and_next(
                kyc_approves(*replies, addr),
            ).and_next(compliance_allows(*replies, addr, addr, 0)),
            result is Err ==> final(self)@ == old(self)@,
            result matches Ok(log) ==> {
                &&& final(self)@ == (TokenView { fee_recipient_role: Some(addr), ..old(self)@ })
                &&& log@ == seq![
                    Effect::ExtendInstance,
                    store(DataKey::FeeRecipientRole, false),
                    Effect::Publish(Event::FeeRecipientSet(addr)),
                ]
            },
            forall|ledger: Ledger| #[trigger]
                leads_to(
                    old(self)@,
                    (Occasion {
                        ledger,
                        replies: *replies,
                        call: TokenCall::SetFeeRecipient { addr },
                    }),
                    result,
                    final(self)@,
                ),
    {
        require_admin(replies)?;
        require_kyc(replies, addr)?;
        require_compliance(replies, addr, addr, 0)?;
        self.fee_recipient_role = Some(addr);
        let mut log = EffectLog::new();
        log.push(Effect::ExtendInstance);
        log.store(DataKey::FeeRecipientRole, false);
        log.publish(Event::FeeRecipientSet(addr));
        assert(log@ =~= seq![
            Effect::ExtendInstance,
            store(DataKey::FeeRecipientRole, false),
            Effect::Publish(Event::FeeRecipientSet(addr)),
        ]);
        Ok(log)
    }

    /// Sets whether transfers skip the compliance check of the fee recipient. For the
    /// administrator.
    pub fn set_fee_recipient_exempt(&mut self, replies: &Replies, exempt: bool) -> (result: Result<
        EffectLog,
        Stop,
    >)
        ensures
            verdict_of(result) == admin_authorizes(*replies),
            result is Err ==> final(self)@ == old(self)@,
            result matches Ok(log) ==> {
                &&& final(self)@ == (TokenView { fee_recipient_exempt: exempt, ..old(self)@ })
                &&& log@ == seq![
                    Effect::ExtendInstance,
                    store(DataKey::FeeRecipientExempt, false),
                    Effect::Publish(Event::FeeExemptionSet(exempt)),
                ]
            },
            forall|ledger: Ledger| #[trigger]
                leads_to(
                    old(self)@,
                    (Occasion {
                        ledger,
                        replies: *replies,
                        call: TokenCall::SetFeeRecipientExempt { exempt },
                    }),
                    result,
                    final(self)@,
                ),
    {
        require_admin(replies)?;
        self.fee_recipient_exempt = exempt;
        let mut log = EffectLog::new();
        log.push(Effect::ExtendInstance);
        log.store(DataKey::FeeRecipientExempt, false);
        log.publish(Event::FeeExemptionSet(exempt));
        assert(log@ =~= seq![
            Effect::ExtendInstance,
            store(DataKey::FeeRecipientExempt, false),
            Effect::Publish(Event::FeeExemptionSet(exempt)),
        ]);
        Ok(log)
    }

    /// Blocks settlement and redemption of all invoices. Transfers are not affected. For
    /// the administrator.
    pub fn pause_lifecycle(&mut self, replies: &Replies) -> (result: Result<EffectLog, Stop>)
        ensures
            verdict_of(result) == admin_authorizes(*replies),
            result is Err ==> final(self)@ == old(self)@,
            result matches Ok(log) ==> {
                &&& final(self)@ == (TokenView { paused: true, ..old(self)@ })
                &&& log@ == seq![
                    Effect::ExtendInstance,
                    store(DataKey::LifecyclePaused, false),
                    Effect::Publish(Event::LifecyclePaused),
                ]
            },
            forall|ledger: Ledger| #[trigger]
                leads_to(
                    old(self)@,
                    (Occasion {
                        ledger,
                        replies: *replies,
                        call: TokenCall::PauseLifecycle,
                    }),
                    result,
                    final(self)@,
                ),
    {
        require_admin(replies)?;
        self.paused = true;
        let mut log = EffectLog::new();
        log.push(Effect::ExtendInstance);
        log.store(DataKey::LifecyclePaused, false);
        log.publish(Event::LifecyclePaused);
        assert(log@ =~= seq![
            Effect::ExtendInstance,
            store(DataKey::LifecyclePaused, false),
            Effect::Publish(Event::LifecyclePaused),
        ]);
        Ok(log)
    }

    /// Lets settlement and redemption resume. For the administrator.
    pub fn unpause_lifecycle(&mut self, replies: &Replies) -> (result: Result<EffectLog, Stop>)
        ensures
            verdict_of(result) == admin_authorizes(*replies),
            result is Err ==> final(self)@ == old(self)@,
            result matches Ok(log) ==> {
                &&& final(self)@ == (TokenView { paused: false, ..old(self)@ })
                &&& log@ == seq![
                    Effect::ExtendInstance,
                    store(DataKey::LifecyclePaused, false),
                    Effect::Publish(Event::LifecycleResumed),
                ]
            },
            forall|ledger: Ledger| #[trigger]
                leads_to(
                    old(self)@,
                    (Occasion {
                        ledger,
                        replies: *replies,
                        call: TokenCall::UnpauseLifecycle,
                    }),
                    result,
                    final(self)@,
                ),
    {
        require_admin(replies)?;
        self.paused = false;
        let mut log = EffectLog::new();
        log.push(Effect::ExtendInstance);
        log.store(DataKey::LifecyclePaused, false);
        log.publish(Event::LifecycleResumed);
        assert(log@ =~= seq![
            Effect::ExtendInstance,
            store(DataKey::LifecyclePaused, false),
            Effect::Publish(Event::LifecycleResumed),
        ]);
        Ok(log)
    }
}

// ---- Allowances ----

/// Whether an allowance can be given, in whatever state the invoice is.
pub open spec fn approve_verdict(replies: Replies, from: Address, amount: i128) -> Verdict {
    authorizes(replies, from).and_next(not_negative(amount))
}

/// The invoice with an allowance.
pub open spec fn approved(
    invoice: InvoiceView,
    from: Address,
    spender: Address,
    amount: i128,
    expiration_ledger: u32,
) -> InvoiceView {
    InvoiceView {
        allowances: invoice.allowances.insert(
            (from, spender),
            AllowanceValue { amount, expiration_ledger },
        ),
        ..invoice
    }
}

impl InvoiceToken {
    /// Allows `spender` to move tokens of `from`, who has to authorize it, up to the
    /// expiration ledger.
    pub fn approve(
        &mut self,
        replies: &Replies,
        from: Address,
        spender: Address,
        invoice_id: &ByteString,
        amount: i128,
        expiration_ledger: u32,
    ) -> (result: Result<EffectLog, Stop>)
        ensures
            verdict_of(result) == approve_verdict(*replies, from, amount),
            result is Err ==> final(self)@ == old(self)@,
            result matches Ok(log) ==> {
                &&& final(self)@ == old(self)@.with_invoice(
                    invoice_id@,
                    approved(
                        old(self)@.invoices[invoice_id@],
                        from,
                        spender,
                        amount,
                        expiration_ledger,
                    ),
                )
                &&& log@ == seq![
                    store(DataKey::Allowance(from, spender, invoice_id@), true),
                    Effect::Publish(
                        Event::Approved {
                            from,
                            spender,
                            invoice_id: invoice_id@,
                            amount,
                            expiration_ledger,
                        },
                    ),
                ]
            },
            forall|ledger: Ledger| #[trigger]
                leads_to(
                    old(self)@,
                    (Occasion {
                        ledger,
                        replies: *replies,
                        call: TokenCall::OnInvoice {
                            id: invoice_id@,
                            call: InvoiceCall::Approve { from, spender, amount, expiration_ledger },
                        },
                    }),
                    result,
                    final(self)@,
                ),
    {
        require_auth(replies, from)?;
        require_not_negative(amount)?;
        let mut invoice = self.take_invoice(invoice_id);
        invoice.allowances.insert((from, spender), AllowanceValue { amount, expiration_ledger });
        self.put_invoice(invoice_id, invoice);
        assert(self@ =~= old(self)@.with_invoice(invoice_id@, invoice@));
        let mut log = EffectLog::new();
        log.store(DataKey::Allowance(from, spender, invoice_id.copy()), true);
        log.publish(
            Event::Approved {
                from,
                spender,
                invoice_id: invoice_id.copy(),
                amount,
                expiration_ledger,
            },
        );
        assert(log@ =~= seq![
            store(DataKey::Allowance(from, spender, invoice_id@), true),
            Effect::Publish(
                Event::Approved {
                    from,
                    spender,
                    invoice_id: invoice_id@,
                    amount,
                    expiration_ledger,
                },
            ),
        ]);
        Ok(log)
    }
}

} // verus!
