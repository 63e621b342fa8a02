//! What the views of values show: every field, as it is.

use crate::effect::{store, Effect, EffectLog, Event, BUMP, DAY_IN_LEDGERS, THRESHOLD};
use crate::ids::{all_strings, meta_of, strings, text_of};
use crate::invoice::{Invoice, InvoiceView};
use crate::settle::{results_view, settlements_view};
use crate::step::{Query, Stop};
use crate::text::ByteString;
use crate::token::InvoiceToken;
use crate::types::{Address, BatchSettleResult, DataKey, InvoiceError, InvoiceMeta};
use vstd::prelude::*;

verus! {

/// Metadata shows all its fields, with the bytes of its strings, whether these are in memory
/// or kept by the host.
pub proof fn law_metadata_shows_every_field(
    meta: InvoiceMeta,
    kept: InvoiceMeta<soroban_sdk::String>,
)
    ensures
        meta@.invoice_id == meta.invoice_id.bytes@,
        meta@.issuer == meta.issuer.bytes@,
        meta@.debtor == meta.debtor.bytes@,
        meta@.face_value_usd == meta.face_value_usd,
        meta@.discount_rate_bps == meta.discount_rate_bps,
        meta@.due_date == meta.due_date,
        meta@.currency == meta.currency.bytes@,
        meta@.ipfs_doc_hash == meta.ipfs_doc_hash.bytes@,
        meta@.transfer_fee_bps == meta.transfer_fee_bps,
        meta@.fee_recipient == meta.fee_recipient,
        meta@.notification_webhook == meta.notification_webhook.bytes@,
        meta_of(kept).invoice_id == text_of(kept.invoice_id),
        meta_of(kept).issuer == text_of(kept.issuer),
        meta_of(kept).debtor == text_of(kept.debtor),
        meta_of(kept).face_value_usd == kept.face_value_usd,
        meta_of(kept).discount_rate_bps == kept.discount_rate_bps,
        meta_of(kept).due_date == kept.due_date,
        meta_of(kept).currency == text_of(kept.currency),
        meta_of(kept).ipfs_doc_hash == text_of(kept.ipfs_doc_hash),
        meta_of(kept).transfer_fee_bps == kept.transfer_fee_bps,
        meta_of(kept).fee_recipient == kept.fee_recipient,
        meta_of(kept).notification_webhook == text_of(kept.notification_webhook),
{
}

/// A record shows all its fields, and a token all its records and settings; where there is no
/// record, it shows a blank one.
pub proof fn law_state_shows_every_field(invoice: Invoice, token: InvoiceToken, id: Seq<u8>)
    ensures
        invoice@.meta is Some <==> invoice.meta is Some,
        invoice.meta matches Some(meta) ==> invoice@.meta == Some(meta@),
        invoice@.status == invoice.status,
        invoice@.supply == invoice.supply,
        invoice@.settlement == invoice.settlement,
        invoice@.dust == invoice.dust,
        invoice@.journal == invoice.journal@,
        invoice@.balances == invoice.balances@,
        invoice@.entitlements == invoice.entitlements@,
        invoice@.allowances == invoice.allowances@,
        token.invoices@.contains_key(id) ==> token@.invoices[id] == token.invoices@[id]@,
        !token.invoices@.contains_key(id) ==> token@.invoices[id] == InvoiceView::blank(),
        token@.invoices_list == token.invoices_list@,
        token@.paused == token.paused,
        token@.fee_recipient_role == token.fee_recipient_role,
        token@.fee_recipient_exempt == token.fee_recipient_exempt,
{
}

/// An address shows itself.
pub proof fn law_address_shows_itself(who: Address)
    ensures
        who@ == who,
{
}

/// The key of an entry shows its kind, the holders, and the bytes of the id.
pub proof fn law_key_shows_every_field(
    id: ByteString,
    from: Address,
    spender: Address,
)
    ensures
        DataKey::InvoiceMeta(id)@ == DataKey::InvoiceMeta(id.bytes@),
        DataKey::Balance(from, id)@ == DataKey::Balance(from, id.bytes@),
        DataKey::Allowance(from, spender, id)@ == DataKey::Allowance(from, spender, id.bytes@),
        DataKey::TotalSupply(id)@ == DataKey::TotalSupply(id.bytes@),
        DataKey::InvoiceStatus(id)@ == DataKey::InvoiceStatus(id.bytes@),
        DataKey::SettlementAmount(id)@ == DataKey::SettlementAmount(id.bytes@),
        DataKey::Journal(id)@ == DataKey::Journal(id.bytes@),
        DataKey::<ByteString>::InvoicesList@ == DataKey::<Seq<u8>>::InvoicesList,
        DataKey::<ByteString>::HolderList@ == DataKey::<Seq<u8>>::HolderList,
        DataKey::<ByteString>::LifecyclePaused@ == DataKey::<Seq<u8>>::LifecyclePaused,
        DataKey::<ByteString>::FeeRecipientRole@ == DataKey::<Seq<u8>>::FeeRecipientRole,
        DataKey::<ByteString>::FeeRecipientExempt@ == DataKey::<Seq<u8>>::FeeRecipientExempt,
        DataKey::SettledEntitlement(id, from)@ == DataKey::SettledEntitlement(id.bytes@, from),
        DataKey::RedemptionDust(id)@ == DataKey::RedemptionDust(id.bytes@),
{
}

/// An event shows its kind, the holders, the amounts, and the bytes of its strings.
pub proof fn law_event_shows_every_field(
    id: ByteString,
    hook: ByteString,
    from: Address,
    to: Address,
    amount: i128,
    ledger: u32,
    exempt: bool,
)
    ensures
        Event::<ByteString>::FeeRecipientSet(from)@ == Event::<Seq<u8>>::FeeRecipientSet(from),
        Event::<ByteString>::FeeExemptionSet(exempt)@ == Event::<Seq<u8>>::FeeExemptionSet(exempt),
        Event::<ByteString>::LifecyclePaused@ == Event::<Seq<u8>>::LifecyclePaused,
        Event::<ByteString>::LifecycleResumed@ == Event::<Seq<u8>>::LifecycleResumed,
        Event::InvoiceCreated(id)@ == Event::InvoiceCreated(id.bytes@),
        Event::<ByteString>::MetaUpdated@ == Event::<Seq<u8>>::MetaUpdated,
        (Event::Issued { to, invoice_id: id, amount, webhook: hook })@ == (Event::Issued {
            to,
            invoice_id: id.bytes@,
            amount,
            webhook: hook.bytes@,
        }),
        (Event::Settled { invoice_id: id, webhook: hook })@ == (Event::Settled {
            invoice_id: id.bytes@,
            webhook: hook.bytes@,
        }),
        (Event::PartiallySettled { invoice_id: id, amount })@ == (Event::PartiallySettled {
            invoice_id: id.bytes@,
            amount,
        }),
        (Event::Redeemed { from, invoice_id: id, amount })@ == (Event::Redeemed {
            from,
            invoice_id: id.bytes@,
            amount,
        }),
        (Event::Burned { from, invoice_id: id, amount })@ == (Event::Burned {
            from,
            invoice_id: id.bytes@,
            amount,
        }),
        Event::<ByteString>::FeeCheckSkipped(from)@ == Event::<Seq<u8>>::FeeCheckSkipped(from),
        (Event::Transferred { from, to, invoice_id: id, amount })@ == (Event::Transferred {
            from,
            to,
            invoice_id: id.bytes@,
            amount,
        }),
        (Event::Approved {
            from,
            spender: to,
            invoice_id: id,
            amount,
            expiration_ledger: ledger,
        })@ == (Event::Approved {
            from,
            spender: to,
            invoice_id: id.bytes@,
            amount,
            expiration_ledger: ledger,
        }),
{
}

/// The name of an event is told by its kind alone.
pub proof fn law_event_is_named_by_its_kind(
    id: ByteString,
    hook: ByteString,
    from: Address,
    to: Address,
    amount: i128,
    ledger: u32,
    exempt: bool,
)
    ensures
        Event::<ByteString>::FeeRecipientSet(from).spec_topic() == "fee_role"@,
        Event::<ByteString>::FeeExemptionSet(exempt).spec_topic() == "fee_xmpt"@,
        Event::<ByteString>::LifecyclePaused.spec_topic() == "lc_pause"@,
        Event::<ByteString>::LifecycleResumed.spec_topic() == "lc_unpse"@,
        Event::InvoiceCreated(id).spec_topic() == "inv_crt"@,
        Event::<ByteString>::MetaUpdated.spec_topic() == "upd_meta"@,
        (Event::Issued { to, invoice_id: id, amount, webhook: hook }).spec_topic() == "issued"@,
        (Event::Settled { invoice_id: id, webhook: hook }).spec_topic() == "settled"@,
        (Event::PartiallySettled { invoice_id: id, amount }).spec_topic() == "p_settld"@,
        (Event::Redeemed { from, invoice_id: id, amount }).spec_topic() == "redeemed"@,
        (Event::Burned { from, invoice_id: id, amount }).spec_topic() == "burn"@,
        Event::<ByteString>::FeeCheckSkipped(from).spec_topic() == "fee_skip"@,
        (Event::Transferred { from, to, invoice_id: id, amount }).spec_topic() == "transfer"@,
        (Event::Approved {
            from,
            spender: to,
            invoice_id: id,
            amount,
            expiration_ledger: ledger,
        }).spec_topic() == "approve"@,
{
}

/// An effect shows its kind and what it is about; a list of effects shows each, in order.
pub proof fn law_effect_shows_every_field(
    key: DataKey,
    extend: bool,
    event: Event,
    who: Address,
    log: EffectLog,
)
    ensures
        store(key@, extend) == (Effect::Store { key: key@, extend }),
        Effect::<ByteString>::ExtendInstance@ == Effect::<Seq<u8>>::ExtendInstance,
        (Effect::Store { key, extend })@ == (Effect::Store { key: key@, extend }),
        Effect::<ByteString>::RegisterHolder(who)@ == Effect::<Seq<u8>>::RegisterHolder(who),
        Effect::Publish(event)@ == Effect::Publish(event@),
        Effect::<ByteString>::WriteAdmin(who)@ == Effect::<Seq<u8>>::WriteAdmin(who),
        Effect::<ByteString>::WriteKycRegistry(who)@ == Effect::<Seq<u8>>::WriteKycRegistry(who),
        Effect::<ByteString>::WriteComplianceEngine(who)@
            == Effect::<Seq<u8>>::WriteComplianceEngine(who),
        Effect::<ByteString>::UpdateKycRegistry(who)@ == Effect::<Seq<u8>>::UpdateKycRegistry(who),
        Effect::<ByteString>::UpdateComplianceEngine(who)@
            == Effect::<Seq<u8>>::UpdateComplianceEngine(who),
        Effect::<ByteString>::ProposeAdmin(who)@ == Effect::<Seq<u8>>::ProposeAdmin(who),
        Effect::<ByteString>::AcceptAdmin@ == Effect::<Seq<u8>>::AcceptAdmin,
        log@.len() == log.effects@.len(),
        forall|i: int| 0 <= i < log@.len() ==> #[trigger] log@[i] == log.effects@[i]@,
{
}

/// A question and a stop show what they are about, and a result of a batch its invoice and
/// its error.
pub proof fn law_question_shows_every_field(
    text: ByteString,
    from: Address,
    to: Address,
    amount: i128,
    query: Query,
    error: InvoiceError,
    result: BatchSettleResult,
)
    ensures
        Query::<ByteString>::AdminAuth@ == Query::<Seq<u8>>::AdminAuth,
        Query::<ByteString>::Auth(from)@ == Query::<Seq<u8>>::Auth(from),
        Query::<ByteString>::Kyc(from)@ == Query::<Seq<u8>>::Kyc(from),
        (Query::<ByteString>::Transfer { from, to, amount })@ == (Query::<Seq<u8>>::Transfer {
            from,
            to,
            amount,
        }),
        (Query::<ByteString>::FeeTransfer { from, to, amount })@ == (
        Query::<Seq<u8>>::FeeTransfer { from, to, amount }),
        Query::Currency(text)@ == Query::Currency(text.bytes@),
        Query::IpfsHash(text)@ == Query::IpfsHash(text.bytes@),
        Stop::Ask(query)@ == Stop::Ask(query@),
        Stop::<ByteString>::Error(error)@ == Stop::<Seq<u8>>::Error(error),
        Stop::<ByteString>::Unauthorized@ == Stop::<Seq<u8>>::Unauthorized,
        Stop::<ByteString>::MissingInvoice@ == Stop::<Seq<u8>>::MissingInvoice,
        Stop::<ByteString>::Overflow@ == Stop::<Seq<u8>>::Overflow,
        result@.invoice_id == result.invoice_id.bytes@,
        result@.error == result.error,
{
}

/// The payments and the reports of a batch, and the strings of a list, show each item, in
/// order. A list is one of strings if each item is one.
pub proof fn law_lists_show_every_item(
    settlements: Seq<(ByteString, i128)>,
    results: Seq<BatchSettleResult>,
    items: Seq<Option<Seq<u8>>>,
)
    ensures
        settlements_view(settlements).len() == settlements.len(),
        forall|i: int|
            0 <= i < settlements.len() ==> #[trigger] settlements_view(settlements)[i] == (
                settlements[i].0.bytes@,
                settlements[i].1,
            ),
        results_view(results).len() == results.len(),
        forall|i: int|
            0 <= i < results.len() ==> #[trigger] results_view(results)[i] == results[i]@,
        strings(items).len() == items.len(),
        forall|i: int|
            0 <= i < items.len() && items[i] is Some ==> Some(#[trigger] strings(items)[i])
                == items[i],
        all_strings(items) <==> forall|i: int| 0 <= i < items.len() ==> #[trigger] items[i] is Some,
{
}

/// Each error is reported under a number of its own.
pub proof fn law_error_has_its_own_code(one: InvoiceError, other: InvoiceError)
    ensures
        1 <= one.spec_code() <= 20,
        one.spec_code() == other.spec_code() ==> one == other,
        InvoiceError::AlreadyInitialized.spec_code() == 1,
        InvoiceError::AlreadySettled.spec_code() == 2,
        InvoiceError::NotSettled.spec_code() == 3,
        InvoiceError::InsufficientBalance.spec_code() == 4,
        InvoiceError::NegativeAmount.spec_code() == 5,
        InvoiceError::InsufficientAllowance.spec_code() == 6,
        InvoiceError::AllowanceExpired.spec_code() == 7,
        InvoiceError::KycNotApproved.spec_code() == 8,
        InvoiceError::CompliancePaused.spec_code() == 9,
        InvoiceError::Blocklisted.spec_code() == 10,
        InvoiceError::TransferBlocked.spec_code() == 11,
        InvoiceError::PastDueDate.spec_code() == 12,
        InvoiceError::InvoiceNotFound.spec_code() == 13,
        InvoiceError::InvoiceAlreadyExists.spec_code() == 14,
        InvoiceError::InvalidWebhook.spec_code() == 15,
        InvoiceError::InvalidLifecycleTransition.spec_code() == 16,
        InvoiceError::OverSettlement.spec_code() == 17,
        InvoiceError::UnderSettlement.spec_code() == 18,
        InvoiceError::LifecyclePaused.spec_code() == 19,
        InvoiceError::InvalidMetadata.spec_code() == 20,
{
}

/// With a ledger every five seconds, an entry is kept for ninety days, and extended once a day
/// of them has passed.
pub proof fn law_entries_last_ninety_days()
    ensures
        DAY_IN_LEDGERS * 5 == 24 * 60 * 60,
        BUMP == 90 * DAY_IN_LEDGERS,
        THRESHOLD == 89 * DAY_IN_LEDGERS,
{
}

} // verus!
