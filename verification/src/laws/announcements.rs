//! What a call announces, whom it registers, and which entries it writes.

use crate::admin::with_creation;
use crate::amount::fee_of;
use crate::effect::{store, Effect, Event};
use crate::history::{
    invoice_effects, invoice_verdict, token_effects, InvoiceCall, Occasion, Setting, TokenCall,
};
use crate::invoice::InvoiceView;
use crate::laws::entries::{lemma_stored_push, stored};
use crate::laws::moves::is_fee;
use crate::laws::reckoning::law_fee_is_the_rate;
use crate::settle::batch_state;
use crate::token::TokenView;
use crate::types::{Address, DataKey, InvoiceMeta, Ledger};
use vstd::prelude::*;

verus! {

/// The events among the effects, in order.
pub open spec fn published(effects: Seq<Effect<Seq<u8>>>) -> Seq<Event<Seq<u8>>>
    decreases effects.len(),
{
    if effects.len() == 0 {
        Seq::empty()
    } else {
        match effects.last() {
            Effect::Publish(event) => published(effects.drop_last()).push(event),
            _ => published(effects.drop_last()),
        }
    }
}

/// The holders that the effects register, in order.
pub open spec fn registered(effects: Seq<Effect<Seq<u8>>>) -> Seq<Address>
    decreases effects.len(),
{
    if effects.len() == 0 {
        Seq::empty()
    } else {
        match effects.last() {
            Effect::RegisterHolder(who) => registered(effects.drop_last()).push(who),
            _ => registered(effects.drop_last()),
        }
    }
}

/// The effects write the entry and extend its lifetime.
pub open spec fn lasting(effects: Seq<Effect<Seq<u8>>>, key: DataKey<Seq<u8>>) -> bool
    decreases effects.len(),
{
    effects.len() > 0 && (effects.last() == (Effect::Store { key, extend: true }) || lasting(
        effects.drop_last(),
        key,
    ))
}

/// The effects keep the contract instance alive.
pub open spec fn extending(effects: Seq<Effect<Seq<u8>>>) -> bool
    decreases effects.len(),
{
    effects.len() > 0 && (effects.last() is ExtendInstance || extending(effects.drop_last()))
}

/// The effects leave the administrator and the contracts around the token alone.
pub open spec fn ordinary(effects: Seq<Effect<Seq<u8>>>) -> bool
    decreases effects.len(),
{
    effects.len() == 0 || (ordinary(effects.drop_last()) && match effects.last() {
        Effect::ExtendInstance => true,
        Effect::Store { .. } => true,
        Effect::RegisterHolder(_) => true,
        Effect::Publish(_) => true,
        _ => false,
    })
}

broadcast proof fn lemma_published_push(effects: Seq<Effect<Seq<u8>>>, effect: Effect<Seq<u8>>)
    ensures
        #[trigger] published(effects.push(effect)) == match effect {
            Effect::Publish(event) => published(effects).push(event),
            _ => published(effects),
        },
{
    assert(effects.push(effect).drop_last() =~= effects);
}

broadcast proof fn lemma_registered_push(effects: Seq<Effect<Seq<u8>>>, effect: Effect<Seq<u8>>)
    ensures
        #[trigger] registered(effects.push(effect)) == match effect {
            Effect::RegisterHolder(who) => registered(effects).push(who),
            _ => registered(effects),
        },
{
    assert(effects.push(effect).drop_last() =~= effects);
}

broadcast proof fn lemma_lasting_push(
    effects: Seq<Effect<Seq<u8>>>,
    effect: Effect<Seq<u8>>,
    key: DataKey<Seq<u8>>,
)
    ensures
        #[trigger] lasting(effects.push(effect), key) == (effect == (Effect::Store {
            key,
            extend: true,
        }) || lasting(effects, key)),
{
    assert(effects.push(effect).drop_last() =~= effects);
}

broadcast proof fn lemma_extending_push(effects: Seq<Effect<Seq<u8>>>, effect: Effect<Seq<u8>>)
    ensures
        #[trigger] extending(effects.push(effect)) == (effect is ExtendInstance || extending(
            effects,
        )),
{
    assert(effects.push(effect).drop_last() =~= effects);
}

broadcast proof fn lemma_ordinary_push(effects: Seq<Effect<Seq<u8>>>, effect: Effect<Seq<u8>>)
    ensures
        #[trigger] ordinary(effects.push(effect)) == (ordinary(effects) && match effect {
            Effect::ExtendInstance => true,
            Effect::Store { .. } => true,
            Effect::RegisterHolder(_) => true,
            Effect::Publish(_) => true,
            _ => false,
        }),
{
    assert(effects.push(effect).drop_last() =~= effects);
}

broadcast group group_effects {
    lemma_published_push,
    lemma_registered_push,
    lemma_lasting_push,
    lemma_extending_push,
    lemma_ordinary_push,
    lemma_stored_push,
}

/// A transfer announces what was moved, after the fee check that was skipped, if one was. It
/// registers the recipient of a fee and the receiver as holders. It writes the balances of
/// all concerned, the entitlement that it fixes, and the allowance that it uses, and extends
/// their lifetimes, but for that of the allowance. It does nothing else.
pub proof fn law_transfer_is_announced(
    invoice: InvoiceView,
    s: Setting,
    id: Seq<u8>,
    spender: Address,
    from: Address,
    to: Address,
    amount: i128,
    call: InvoiceCall,
    fee: int,
    key: DataKey<Seq<u8>>,
)
    requires
        call == (InvoiceCall::Transfer { from, to, amount }) || call == (
        InvoiceCall::TransferFrom { spender, from, to, amount }),
        invoice_verdict(invoice, s, call) is Ok,
        is_fee(fee, invoice.meta->0, amount),
    ensures
        ({
            let effects = invoice_effects(invoice, s, id, call);
            let recipient = invoice.meta->0.fee_recipient->0;
            let moved = Event::Transferred { from, to, invoice_id: id, amount };
            let fixing = invoice.status is PartiallySettled && invoice.supply > 0
                && invoice.settlement > 0;
            let using = call is TransferFrom && key == DataKey::Allowance(from, spender, id);
            let lasts = {
                ||| key == DataKey::Balance(from, id)
                ||| key == DataKey::Balance(to, id)
                ||| fee > 0 && key == DataKey::Balance(recipient, id)
                ||| fixing && key == DataKey::SettledEntitlement(id, from)
            };
            &&& published(effects) == if fee > 0 && s.exempt {
                seq![Event::FeeCheckSkipped(recipient), moved]
            } else {
                seq![moved]
            }
            &&& effects.last() == Effect::Publish(moved)
            &&& registered(effects) == if fee > 0 {
                seq![recipient, to]
            } else {
                seq![to]
            }
            &&& stored(effects, key) <==> lasts || using
            &&& lasting(effects, key) <==> lasts
            &&& extending(effects) <==> call is Transfer
            &&& ordinary(effects)
            &&& effects.len() == 5 + (if fixing {
                1int
            } else {
                0
            }) + (if fee > 0 {
                2int
            } else {
                0
            }) + (if fee > 0 && s.exempt {
                1int
            } else {
                0
            })
        }),
{
    broadcast use group_effects;

    law_fee_is_the_rate(invoice.meta->0, amount);
    assert(fee == fee_of(invoice.meta->0, amount));
    assert(!stored(Seq::<Effect<Seq<u8>>>::empty(), key));
}

/// An issue announces what was issued, with the webhook of the invoice, and registers the
/// receiver as a holder. It writes the balance and the supply and, with the first tokens,
/// the state and the journal, and extends their lifetimes. It does nothing else.
pub proof fn law_issue_is_announced(
    invoice: InvoiceView,
    s: Setting,
    id: Seq<u8>,
    to: Address,
    amount: i128,
    key: DataKey<Seq<u8>>,
)
    requires
        invoice_verdict(invoice, s, InvoiceCall::Issue { to, amount }) is Ok,
    ensures
        ({
            let effects = invoice_effects(invoice, s, id, InvoiceCall::Issue { to, amount });
            let written = {
                ||| key == DataKey::Balance(to, id)
                ||| key == DataKey::TotalSupply(id)
                ||| invoice.status is Created && amount > 0 && (key == DataKey::Journal(id) || key
                    == DataKey::InvoiceStatus(id))
            };
            &&& published(effects) == seq![
                Event::Issued {
                    to,
                    invoice_id: id,
                    amount,
                    webhook: invoice.meta->0.notification_webhook,
                },
            ]
            &&& effects.last() is Publish
            &&& registered(effects) == seq![to]
            &&& stored(effects, key) <==> written
            &&& lasting(effects, key) <==> written
            &&& extending(effects)
            &&& ordinary(effects)
            &&& effects.len() == if invoice.status is Created && amount > 0 {
                7int
            } else {
                5
            }
        }),
{
    broadcast use group_effects;

    assert(!stored(Seq::<Effect<Seq<u8>>>::empty(), key));
}

/// A settlement announces itself: one in full with the webhook of the invoice, one by payment
/// with the payment. It writes the state, the journal, the settlement, and what is left of
/// it, and extends their lifetimes. It does nothing else.
pub proof fn law_settlement_is_announced(
    invoice: InvoiceView,
    s: Setting,
    id: Seq<u8>,
    amount: i128,
    call: InvoiceCall,
    key: DataKey<Seq<u8>>,
)
    requires
        call is Settle || call == (InvoiceCall::PartialSettle { amount }) || call == (
        InvoiceCall::BatchPayment { amount }),
        invoice_verdict(invoice, s, call) is Ok,
    ensures
        ({
            let effects = invoice_effects(invoice, s, id, call);
            let written = {
                ||| key == DataKey::Journal(id)
                ||| key == DataKey::InvoiceStatus(id)
                ||| key == DataKey::SettlementAmount(id)
                ||| key == DataKey::RedemptionDust(id)
            };
            &&& published(effects) == if call is Settle {
                seq![
                    Event::Settled {
                        invoice_id: id,
                        webhook: invoice.meta->0.notification_webhook,
                    },
                ]
            } else {
                seq![Event::PartiallySettled { invoice_id: id, amount }]
            }
            &&& registered(effects) == Seq::<Address>::empty()
            &&& stored(effects, key) <==> written
            &&& lasting(effects, key) <==> written
            &&& effects.last() is Publish
            &&& extending(effects) <==> !(call is BatchPayment)
            &&& ordinary(effects)
            &&& effects.len() == if call is BatchPayment {
                5int
            } else {
                6
            }
        }),
{
    broadcast use group_effects;

    assert(!stored(Seq::<Effect<Seq<u8>>>::empty(), key));
}

/// A batch announces and writes what its payments do, in turn, and nothing for one that
/// fails.
pub proof fn law_batch_is_announced(
    token: TokenView,
    ledger: Ledger,
    settlements: Seq<(Seq<u8>, i128)>,
    index: nat,
    key: DataKey<Seq<u8>>,
)
    requires
        index < settlements.len(),
    ensures
        ({
            let (id, amount) = settlements[index as int];
            let before = batch_state(token, ledger, settlements, index).effects;
            let after = batch_state(token, ledger, settlements, index + 1).effects;
            let results = batch_state(token, ledger, settlements, index + 1).results;
            let ours = {
                ||| key == DataKey::Journal(id)
                ||| key == DataKey::InvoiceStatus(id)
                ||| key == DataKey::SettlementAmount(id)
                ||| key == DataKey::RedemptionDust(id)
            };
            if results.last().error is Some {
                after == before
            } else {
                &&& published(after) == published(before).push(
                    Event::PartiallySettled { invoice_id: id, amount },
                )
                &&& registered(after) == registered(before)
                &&& stored(after, key) <==> stored(before, key) || ours
                &&& lasting(after, key) <==> lasting(before, key) || ours
                &&& ordinary(after) <==> ordinary(before)
                &&& extending(after) <==> extending(before)
                &&& after.len() == before.len() + 5
            }
        }),
        batch_state(token, ledger, settlements, 0).effects == seq![
            Effect::<Seq<u8>>::ExtendInstance,
        ],
{
    broadcast use group_effects;

}

/// A redemption or a burn announces what is gone. It writes the balance of the holder and the
/// supply, the allowance that it uses, and when it closes the invoice the state and the
/// journal; a redemption also what is left of the settlement and of the holder's
/// entitlement. It extends the lifetimes of all but the balance and the allowance, and does
/// nothing else.
pub proof fn law_redemption_and_burn_are_announced(
    invoice: InvoiceView,
    s: Setting,
    id: Seq<u8>,
    spender: Address,
    from: Address,
    amount: i128,
    call: InvoiceCall,
    key: DataKey<Seq<u8>>,
)
    requires
        call == (InvoiceCall::Redeem { from, amount }) || call == (InvoiceCall::Burn {
            from,
            amount,
        }) || call == (InvoiceCall::BurnFrom { spender, from, amount }),
        invoice_verdict(invoice, s, call) is Ok,
    ensures
        ({
            let effects = invoice_effects(invoice, s, id, call);
            let closing = invoice.supply == amount && (invoice.status is PartiallySettled
                || invoice.status is FullySettled);
            let lasts = {
                ||| key == DataKey::TotalSupply(id)
                ||| closing && (key == DataKey::Journal(id) || key == DataKey::InvoiceStatus(id))
                ||| call is Redeem && invoice.entitlement(from) is Some && key
                    == DataKey::SettledEntitlement(id, from)
                ||| call is Redeem && invoice.dust is Some && key == DataKey::RedemptionDust(id)
            };
            &&& published(effects) == if call is Redeem {
                seq![Event::Redeemed { from, invoice_id: id, amount }]
            } else {
                seq![Event::Burned { from, invoice_id: id, amount }]
            }
            &&& registered(effects) == Seq::<Address>::empty()
            &&& stored(effects, key) <==> lasts || key == DataKey::Balance(from, id) || (
            call is BurnFrom && key == DataKey::Allowance(from, spender, id))
            &&& lasting(effects, key) <==> lasts
            &&& effects.last() is Publish
            &&& extending(effects) <==> call is Redeem
            &&& ordinary(effects)
            &&& effects.len() == (if call is Burn {
                3int
            } else {
                4
            }) + (if closing {
                2int
            } else {
                0
            }) + (if call is Redeem && invoice.entitlement(from) is Some {
                1int
            } else {
                0
            }) + (if call is Redeem && invoice.dust is Some {
                1int
            } else {
                0
            })
        }),
{
    broadcast use group_effects;

    assert(!stored(Seq::<Effect<Seq<u8>>>::empty(), key));
}

/// An approval announces the allowance, writes it and extends its lifetime. An update of the
/// metadata announces itself and writes the metadata. Neither does anything else.
pub proof fn law_approval_and_update_are_announced(
    invoice: InvoiceView,
    s: Setting,
    id: Seq<u8>,
    from: Address,
    spender: Address,
    amount: i128,
    expiration_ledger: u32,
    meta: InvoiceMeta<Seq<u8>>,
    key: DataKey<Seq<u8>>,
)
    ensures
        ({
            let call = InvoiceCall::Approve { from, spender, amount, expiration_ledger };
            let effects = invoice_effects(invoice, s, id, call);
            &&& published(effects) == seq![
                Event::Approved { from, spender, invoice_id: id, amount, expiration_ledger },
            ]
            &&& registered(effects) == Seq::<Address>::empty()
            &&& stored(effects, key) <==> key == DataKey::Allowance(from, spender, id)
            &&& lasting(effects, key) <==> key == DataKey::Allowance(from, spender, id)
            &&& !extending(effects)
            &&& ordinary(effects)
            &&& effects.len() == 2
        }),
        ({
            let effects = invoice_effects(invoice, s, id, InvoiceCall::UpdateMeta { meta });
            &&& published(effects) == seq![Event::<Seq<u8>>::MetaUpdated]
            &&& registered(effects) == Seq::<Address>::empty()
            &&& stored(effects, key) <==> key == DataKey::InvoiceMeta(id)
            &&& !lasting(effects, key)
            &&& !extending(effects)
            &&& ordinary(effects)
            &&& effects.len() == 2
        }),
{
    broadcast use group_effects;

    let none = Seq::<Effect<Seq<u8>>>::empty();
    assert(!stored(none, key));
    let call = InvoiceCall::Approve { from, spender, amount, expiration_ledger };
    assert(invoice_effects(invoice, s, id, call) =~= none.push(
        store(DataKey::Allowance(from, spender, id), true),
    ).push(
        Effect::Publish(
            Event::Approved { from, spender, invoice_id: id, amount, expiration_ledger },
        ),
    ));
    assert(invoice_effects(invoice, s, id, InvoiceCall::UpdateMeta { meta }) =~= none.push(
        store(DataKey::InvoiceMeta(id), false),
    ).push(Effect::Publish(Event::MetaUpdated)));
}

/// The creation of an invoice announces its id. It writes the metadata, the supply, the state
/// and the journal, and extends their lifetimes, and writes the list of ids. The
/// constructor first sets the administrator, the KYC registry and the compliance engine.
/// Neither does anything else.
pub proof fn law_creation_is_announced(
    token: TokenView,
    o: Occasion,
    meta: InvoiceMeta<Seq<u8>>,
    key: DataKey<Seq<u8>>,
)
    requires
        match o.call {
            TokenCall::CreateInvoice { meta: given } => given == meta,
            TokenCall::Constructor { meta: given, .. } => given == meta,
            _ => false,
        },
    ensures
        ({
            let effects = token_effects(token, o);
            let id = meta.invoice_id;
            let lasts = {
                ||| key == DataKey::InvoiceMeta(id)
                ||| key == DataKey::TotalSupply(id)
                ||| key == DataKey::InvoiceStatus(id)
                ||| key == DataKey::Journal(id)
            };
            &&& published(effects) == seq![Event::InvoiceCreated(id)]
            &&& registered(effects) == Seq::<Address>::empty()
            &&& stored(effects, key) <==> lasts || key is InvoicesList
            &&& lasting(effects, key) <==> lasts
            &&& effects.last() is Publish
            &&& extending(effects) <==> o.call is CreateInvoice
            &&& ordinary(effects) <==> o.call is CreateInvoice
            &&& effects.len() == if o.call is CreateInvoice {
                7int
            } else {
                9
            }
            &&& o.call matches TokenCall::Constructor {
                admin,
                kyc_registry,
                compliance_engine,
                ..
            } ==> effects.len() >= 3 && effects[0] == Effect::<Seq<u8>>::WriteAdmin(admin)
                && effects[1] == Effect::<Seq<u8>>::WriteKycRegistry(kyc_registry) && effects[2]
                == Effect::<Seq<u8>>::WriteComplianceEngine(compliance_engine)
        }),
{
    broadcast use group_effects;

    let none = Seq::<Effect<Seq<u8>>>::empty();
    assert(!stored(none, key));
    if let TokenCall::Constructor { admin, kyc_registry, compliance_engine, .. } = o.call {
        let first = none.push(Effect::WriteAdmin(admin)).push(
            Effect::WriteKycRegistry(kyc_registry),
        ).push(Effect::WriteComplianceEngine(compliance_engine));
        assert(first =~= seq![
            Effect::WriteAdmin(admin),
            Effect::WriteKycRegistry(kyc_registry),
            Effect::WriteComplianceEngine(compliance_engine),
        ]);
        assert(token_effects(token, o) == with_creation(first, meta.invoice_id));
    }
}

} // verus!
