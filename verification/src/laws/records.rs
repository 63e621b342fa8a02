//! When invoices come on record, and what the administrator can change.

use crate::admin::{fields_pass, https, meta_passes, valid_webhook};
use crate::effect::{Effect, Event};
use crate::history::{
    invoice_step, invoice_verdict, token_effects, token_step, token_verdict, InvoiceCall,
    Occasion, Setting, TokenCall,
};
use crate::invoice::{has_meta, InvoiceView};
use crate::laws::moves::refusal;
use crate::step::{Query, Replies, Stop};
use crate::token::TokenView;
use crate::types::{
    Address, DataKey, InvoiceError, InvoiceMeta, InvoiceStatus, KycState, TransferDecision,
};
use vstd::prelude::*;

verus! {

/// A webhook is empty, or has at least 8 and at most 256 bytes, of which the first are
/// those of `https://`.
pub open spec fn is_https_or_empty(webhook: Seq<u8>) -> bool {
    webhook.len() == 0 || (8 <= webhook.len() <= 256 && forall|i: int|
        0 <= i < 8 ==> #[trigger] webhook[i] as int == "https://"@[i] as int)
}

/// A webhook is accepted exactly if it is empty or an https URL that is not too long.
pub proof fn law_webhook_is_https(webhook: Seq<u8>)
    ensures
        valid_webhook(webhook) <==> is_https_or_empty(webhook),
{
    reveal_strlit("https://");
    if webhook.len() >= 8 {
        let start = webhook.take(8);
        let wanted = https();
        assert(forall|i: int| 0 <= i < 8 ==> start[i] == #[trigger] webhook[i]);
        assert(forall|i: int| 0 <= i < 8 ==> #[trigger] wanted[i] as int == "https://"@[i] as int);
        if is_https_or_empty(webhook) {
            assert forall|i: int| 0 <= i < 8 implies start[i] == wanted[i] by {
                assert(webhook[i] as int == "https://"@[i] as int);
            }
            assert(start =~= wanted);
        }
        if start == wanted {
            assert forall|i: int| 0 <= i < 8 implies #[trigger] webhook[i] as int
                == "https://"@[i] as int by {
                assert(wanted[i] as int == "https://"@[i] as int);
                assert(start[i] == webhook[i]);
            }
        }
    }
}

/// Metadata is accepted exactly when its webhook is empty or an https URL, its currency and
/// document hash are valid, its face value is more than nothing, and its fee is no more than
/// the whole amount. What the answers lack is asked for, with the field in question.
pub proof fn law_metadata_is_validated(replies: Replies, meta: InvoiceMeta<Seq<u8>>)
    ensures
        is_https_or_empty(meta.notification_webhook) ==> meta_passes(replies, meta) == fields_pass(
            replies,
            meta,
        ),
        forall|webhook: Seq<u8>|
            fields_pass(replies, meta) == #[trigger] fields_pass(
                replies,
                (InvoiceMeta { notification_webhook: webhook, ..meta }),
            ),
        ({
            let verdict = meta_passes(replies, meta);
            let hooked = is_https_or_empty(meta.notification_webhook);
            let priced = hooked && replies.currency == Some(true) && meta.face_value_usd > 0;
            let documented = priced && replies.ipfs_hash == Some(true);
            &&& verdict is Ok <==> documented && meta.transfer_fee_bps <= 10_000
            &&& verdict == refusal(InvoiceError::InvalidWebhook) <==> !hooked
            &&& verdict == refusal(InvoiceError::InvalidMetadata) <==> hooked && (replies.currency
                == Some(false) || (replies.currency == Some(true) && meta.face_value_usd <= 0) || (
            priced && replies.ipfs_hash == Some(false)) || (documented && meta.transfer_fee_bps
                > 10_000))
            &&& verdict == Err::<(), Stop<Seq<u8>>>(
                Stop::Ask(Query::Currency(meta.currency)),
            ) <==> hooked && replies.currency is None
            &&& verdict == Err::<(), Stop<Seq<u8>>>(
                Stop::Ask(Query::IpfsHash(meta.ipfs_doc_hash)),
            ) <==> priced && replies.ipfs_hash is None
        }),
{
    law_webhook_is_https(meta.notification_webhook);
}

/// An invoice is created exactly when its metadata is accepted and no invoice has its id,
/// by the administrator or by the constructor. It starts without tokens and without a
/// journal, and is listed last; allowances that were given before stay. No other invoice
/// and no setting changes.
pub proof fn law_creation_puts_one_invoice_on_record(
    token: TokenView,
    o: Occasion,
    meta: InvoiceMeta<Seq<u8>>,
    other: Seq<u8>,
)
    requires
        match o.call {
            TokenCall::CreateInvoice { meta: given } => given == meta,
            TokenCall::Constructor { meta: given, .. } => given == meta,
            _ => false,
        },
    ensures
        ({
            let verdict = token_verdict(token, o);
            let after = token_step(token, o);
            let before = token.invoices[meta.invoice_id];
            let permitted = o.call is Constructor || o.replies.authorized == Some(true);
            let accepted = permitted && meta_passes(o.replies, meta) is Ok;
            &&& verdict is Ok <==> accepted && before.meta is None
            &&& verdict == refusal(InvoiceError::InvoiceAlreadyExists) <==> accepted
                && before.meta is Some
            &&& permitted && meta_passes(o.replies, meta) is Err ==> verdict == meta_passes(
                o.replies,
                meta,
            )
            &&& verdict is Ok ==> {
                &&& after.invoices[meta.invoice_id] == (InvoiceView {
                    meta: Some(meta),
                    supply: 0,
                    status: InvoiceStatus::Created,
                    journal: Seq::empty(),
                    ..before
                })
                &&& other != meta.invoice_id ==> after.invoices[other] == token.invoices[other]
                &&& after.invoices_list == token.invoices_list.push(meta.invoice_id)
                &&& after.paused == token.paused
                &&& after.fee_recipient_role == token.fee_recipient_role
                &&& after.fee_recipient_exempt == token.fee_recipient_exempt
            }
        }),
{
    law_metadata_is_validated(o.replies, meta);
}

/// The metadata of an invoice is replaced exactly when the administrator authorizes it, the
/// new metadata is accepted, and no settlement has begun. Nothing else changes.
pub proof fn law_update_replaces_the_metadata(
    invoice: InvoiceView,
    s: Setting,
    meta: InvoiceMeta<Seq<u8>>,
)
    ensures
        ({
            let verdict = invoice_verdict(invoice, s, InvoiceCall::UpdateMeta { meta });
            let after = invoice_step(invoice, s, InvoiceCall::UpdateMeta { meta });
            let authorized = s.replies.authorized == Some(true);
            let accepted = authorized && meta_passes(s.replies, meta) is Ok;
            let begun = !(invoice.status is Created || invoice.status is Issued);
            &&& verdict is Ok <==> accepted && !begun
            &&& verdict == refusal(InvoiceError::AlreadySettled) <==> accepted && begun
            &&& authorized && meta_passes(s.replies, meta) is Err ==> verdict == meta_passes(
                s.replies,
                meta,
            )
            &&& accepted && !begun ==> after == (InvoiceView { meta: Some(meta), ..invoice })
        }),
{
    law_metadata_is_validated(s.replies, meta);
}

/// A call on an invoice is that call on its record, in the settings of the token, and leaves
/// all else as it was.
pub proof fn law_call_on_an_invoice_is_local(
    token: TokenView,
    o: Occasion,
    id: Seq<u8>,
    call: InvoiceCall,
    other: Seq<u8>,
)
    requires
        o.call == (TokenCall::OnInvoice { id, call }),
    ensures
        ({
            let after = token_step(token, o);
            let s = Setting {
                ledger: o.ledger,
                replies: o.replies,
                paused: token.paused,
                exempt: token.fee_recipient_exempt,
            };
            &&& token_verdict(token, o) == invoice_verdict(token.invoices[id], s, call)
            &&& after.invoices[id] == invoice_step(token.invoices[id], s, call)
            &&& other != id ==> after.invoices[other] == token.invoices[other]
            &&& after.invoices_list == token.invoices_list
            &&& after.paused == token.paused
            &&& after.fee_recipient_role == token.fee_recipient_role
            &&& after.fee_recipient_exempt == token.fee_recipient_exempt
        }),
{
}

/// The metadata of an invoice can be read exactly if it is on record.
pub proof fn law_metadata_is_there_or_missing(invoice: InvoiceView)
    ensures
        has_meta(invoice) == match invoice.meta {
            Some(_) => Ok::<(), Stop<Seq<u8>>>(()),
            None => Err(Stop::MissingInvoice),
        },
{
}

/// A record put under an id is found there, and nothing else changes; a new token has blank
/// records, no list, and all settings off.
pub proof fn law_record_is_found_where_it_was_put(
    token: TokenView,
    id: Seq<u8>,
    invoice: InvoiceView,
    other: Seq<u8>,
)
    ensures
        ({
            let after = token.with_invoice(id, invoice);
            &&& after.invoices[id] == invoice
            &&& other != id ==> after.invoices[other] == token.invoices[other]
            &&& after == (TokenView { invoices: after.invoices, ..token })
        }),
        ({
            let new = TokenView::empty();
            let blank = InvoiceView::blank();
            &&& new.invoices[id] == blank
            &&& new.invoices_list.len() == 0
            &&& !new.paused && !new.fee_recipient_exempt && new.fee_recipient_role is None
            &&& blank.meta is None && blank.status is Created && blank.supply == 0
                && blank.settlement == 0 && blank.dust is None && blank.journal.len() == 0
            &&& blank.balances == Map::<Address, i128>::empty()
            &&& blank.entitlements == Map::<Address, i128>::empty()
            &&& forall|from: Address, spender: Address|
                !#[trigger] blank.allowances.contains_key((from, spender))
        }),
{
}

/// Each setting is changed exactly when the administrator authorizes it; the fee recipient
/// role also needs the approval of the KYC registry and a transfer to itself that the
/// compliance engine allows. The setting is as asked for, is written and announced, and
/// nothing else changes.
pub proof fn law_settings_are_set(token: TokenView, o: Occasion)
    ensures
        ({
            let verdict = token_verdict(token, o);
            let after = token_step(token, o);
            let effects = token_effects(token, o);
            let authorized = o.replies.authorized == Some(true);
            match o.call {
                TokenCall::SetFeeRecipient { addr } => {
                    let approved = authorized && o.replies.kyc == Some(KycState::Approved);
                    let allowed = approved && o.replies.transfer == Some(TransferDecision::Allow);
                    let denied = |kyc: bool|
                        approved && o.replies.transfer == Some(
                            TransferDecision::Deny { for_kyc: kyc },
                        );
                    &&& verdict is Ok <==> allowed
                    &&& verdict == refusal(InvoiceError::KycNotApproved) <==> (authorized
                        && o.replies.kyc == Some(KycState::NotApproved)) || denied(true)
                    &&& verdict == refusal(InvoiceError::TransferBlocked) <==> denied(false)
                    &&& authorized && o.replies.kyc is None ==> verdict == Err::<
                        (),
                        Stop<Seq<u8>>,
                    >(Stop::Ask(Query::Kyc(addr)))
                    &&& approved && o.replies.transfer is None ==> verdict == Err::<
                        (),
                        Stop<Seq<u8>>,
                    >(Stop::Ask(Query::Transfer { from: addr, to: addr, amount: 0 }))
                    &&& allowed ==> after == (TokenView {
                        fee_recipient_role: Some(addr),
                        ..token
                    })
                    &&& effects == seq![
                        Effect::<Seq<u8>>::ExtendInstance,
                        Effect::Store { key: DataKey::FeeRecipientRole, extend: false },
                        Effect::Publish(Event::FeeRecipientSet(addr)),
                    ]
                },
                TokenCall::SetFeeRecipientExempt { exempt } => {
                    &&& verdict is Ok <==> authorized
                    &&& authorized ==> after == (TokenView {
                        fee_recipient_exempt: exempt,
                        ..token
                    })
                    &&& effects == seq![
                        Effect::<Seq<u8>>::ExtendInstance,
                        Effect::Store { key: DataKey::FeeRecipientExempt, extend: false },
                        Effect::Publish(Event::FeeExemptionSet(exempt)),
                    ]
                },
                TokenCall::PauseLifecycle => {
                    &&& verdict is Ok <==> authorized
                    &&& authorized ==> after == (TokenView { paused: true, ..token })
                    &&& effects == seq![
                        Effect::<Seq<u8>>::ExtendInstance,
                        Effect::Store { key: DataKey::LifecyclePaused, extend: false },
                        Effect::Publish(Event::LifecyclePaused),
                    ]
                },
                TokenCall::UnpauseLifecycle => {
                    &&& verdict is Ok <==> authorized
                    &&& authorized ==> after == (TokenView { paused: false, ..token })
                    &&& effects == seq![
                        Effect::<Seq<u8>>::ExtendInstance,
                        Effect::Store { key: DataKey::LifecyclePaused, extend: false },
                        Effect::Publish(Event::LifecycleResumed),
                    ]
                },
                _ => true,
            }
        }),
{
}

} // verus!
