//! Single calls with the answers at hand: amounts, errors, effects, and rules across calls.

use invoice_token::admin::{validate_invoice_meta, validate_webhook};
use invoice_token::amount::{discounted_value, transfer_fee};
use invoice_token::effect::{Effect, EffectLog, Event, BUMP, DAY_IN_LEDGERS, THRESHOLD};
use invoice_token::ids::IdList;
use invoice_token::invoice::Invoice;
use invoice_token::step::{
    difference, product, require_allowed, sum, Query, Replies, Stop,
};
use invoice_token::table::Table;
use invoice_token::text::ByteString;
use invoice_token::token::InvoiceToken;
use invoice_token::types::{
    Address, AllowanceValue, DataKey, InvoiceError, InvoiceMeta, InvoiceStatus, JournalEntry,
    KycState, Ledger, TransferDecision,
};
use soroban_sdk::{Env, TryFromVal};

const FACE: i128 = 1_000_000;
const NOW: Ledger = Ledger { sequence: 40, timestamp: 1_000 };

fn text(s: &str) -> ByteString {
    ByteString::new(s.as_bytes().to_vec())
}

fn id() -> ByteString {
    text("INV-1")
}

fn person(n: u128) -> Address {
    Address { is_contract: false, high: 0, low: n }
}

fn yes() -> Replies {
    Replies {
        authorized: Some(true),
        kyc: Some(KycState::Approved),
        transfer: Some(TransferDecision::Allow),
        fee_transfer: Some(TransferDecision::Allow),
        currency: Some(true),
        ipfs_hash: Some(true),
    }
}

fn nothing() -> Replies {
    Replies {
        authorized: None,
        kyc: None,
        transfer: None,
        fee_transfer: None,
        currency: None,
        ipfs_hash: None,
    }
}

fn meta_of(name: &str) -> InvoiceMeta {
    InvoiceMeta {
        invoice_id: text(name),
        issuer: text("Issuer"),
        debtor: text("Debtor"),
        face_value_usd: FACE,
        discount_rate_bps: 1_000,
        due_date: 2_000,
        currency: text("USD"),
        ipfs_doc_hash: text("Qm1"),
        transfer_fee_bps: 0,
        fee_recipient: None,
        notification_webhook: text(""),
    }
}

fn meta() -> InvoiceMeta {
    meta_of("INV-1")
}

fn with_fee(bps: u32, recipient: Address) -> InvoiceMeta {
    InvoiceMeta { transfer_fee_bps: bps, fee_recipient: Some(recipient), ..meta() }
}

fn token_with(meta: InvoiceMeta) -> InvoiceToken {
    let mut token = InvoiceToken::new(&Env::default());
    token.create_invoice(&yes(), meta).unwrap();
    token
}

fn issued(amount: i128) -> InvoiceToken {
    let mut token = token_with(meta());
    token.issue(&NOW, &yes(), &id(), person(1), amount).unwrap();
    token
}

fn error<T>(result: Result<T, Stop>) -> InvoiceError {
    match result {
        Err(Stop::Error(error)) => error,
        _ => panic!("no error"),
    }
}

fn stop<T>(result: Result<T, Stop>) -> Stop {
    match result {
        Err(stop) => stop,
        Ok(_) => panic!("it went through"),
    }
}

fn store(key: DataKey, extend: bool) -> Effect {
    Effect::Store { key, extend }
}

fn events(log: &EffectLog) -> Vec<Event> {
    log.effects
        .iter()
        .filter_map(|effect| match effect {
            Effect::Publish(event) => Some(event.clone()),
            _ => None,
        })
        .collect()
}

// ---- Amounts ----

#[test]
fn fee_is_basis_points_rounded_down() {
    let meta = with_fee(250, person(9));
    assert_eq!(transfer_fee(&meta, 1_000), Ok(25));
    assert_eq!(transfer_fee(&meta, 1_039), Ok(25));
    assert_eq!(transfer_fee(&meta, 1_040), Ok(26));
    assert_eq!(transfer_fee(&meta, 39), Ok(0));
    assert_eq!(transfer_fee(&meta, -1_039), Ok(-25));
    assert_eq!(transfer_fee(&with_fee(10_000, person(9)), 77), Ok(77));
    assert_eq!(transfer_fee(&with_fee(0, person(9)), 1_000), Ok(0));
    assert_eq!(
        transfer_fee(&InvoiceMeta { transfer_fee_bps: 250, ..meta_of("A") }, 1_000),
        Ok(0)
    );
    assert_eq!(transfer_fee(&meta, i128::MAX), Err(Stop::Overflow));
}

#[test]
fn present_value_discounts_whole_days() {
    let year = InvoiceMeta { due_date: 365 * 86_400, ..meta() };
    assert_eq!(discounted_value(&year, 0), Ok(900_000));
    assert_eq!(discounted_value(&year, 86_400), Ok(900_274));
    assert_eq!(discounted_value(&year, 364 * 86_400 + 1), Ok(FACE));
    assert_eq!(discounted_value(&year, 366 * 86_400), Ok(FACE));
    let steep = InvoiceMeta { discount_rate_bps: 20_000, ..year.clone() };
    assert_eq!(discounted_value(&steep, 0), Ok(0));
    let huge = InvoiceMeta { face_value_usd: i128::MAX, ..year };
    assert_eq!(discounted_value(&huge, 0), Err(Stop::Overflow));
}

#[test]
fn present_value_is_read_from_the_token() {
    let token = token_with(InvoiceMeta { due_date: 1_000 + 73 * 86_400, ..meta() });
    assert_eq!(token.present_value(&NOW, &id()), Ok(980_000));
    let later = Ledger { sequence: 41, timestamp: 2_000 + 73 * 86_400 };
    assert_eq!(token.present_value(&later, &id()), Ok(FACE));
    assert_eq!(token.present_value(&NOW, &text("none")), Err(Stop::MissingInvoice));
}

#[test]
fn arithmetic_stops_at_128_bits() {
    assert_eq!(sum(i128::MAX - 1, 1), Ok(i128::MAX));
    assert_eq!(sum(i128::MAX, 1), Err(Stop::Overflow));
    assert_eq!(difference(i128::MIN + 1, 1), Ok(i128::MIN));
    assert_eq!(difference(i128::MIN, 1), Err(Stop::Overflow));
    assert_eq!(product(-4, 5), Ok(-20));
    assert_eq!(product(i128::MAX, 2), Err(Stop::Overflow));
}

#[test]
fn share_of_settlement_is_rounded_down() {
    let mut token = issued(7);
    token.issue(&NOW, &yes(), &id(), person(2), 3).unwrap();
    token.partial_settle(&NOW, &yes(), &id(), 9).unwrap();
    // 7 * 9 / 10 = 6.3
    assert_eq!(error(token.redeem(&NOW, &yes(), &id(), person(1), 7)), InvoiceError::OverSettlement);
    token.redeem(&NOW, &yes(), &id(), person(1), 6).unwrap();
    assert_eq!(token.balance(person(1), &id()), 1);
    assert_eq!(token.total_supply(&id()), 4);
}

#[test]
fn share_beyond_128_bits_is_nothing() {
    let huge = InvoiceMeta { face_value_usd: i128::MAX, ..meta() };
    let mut token = token_with(huge);
    token.issue(&NOW, &yes(), &id(), person(1), i128::MAX).unwrap();
    token.partial_settle(&NOW, &yes(), &id(), i128::MAX - 1).unwrap();
    assert_eq!(error(token.redeem(&NOW, &yes(), &id(), person(1), 1)), InvoiceError::OverSettlement);
    // Full settlement gives the balance, whatever its size.
    token.settle(&NOW, &yes(), &id()).unwrap();
    token.redeem(&NOW, &yes(), &id(), person(1), i128::MAX).unwrap();
    assert_eq!(token.invoice_status(&id()), InvoiceStatus::Redeemed);
}

#[test]
fn negative_amounts_are_refused() {
    let (a, b) = (person(1), person(2));
    let mut token = token_with(meta());
    let negative = InvoiceError::NegativeAmount;
    assert_eq!(error(token.issue(&NOW, &yes(), &id(), a, -5)), negative);
    assert_eq!(error(token.burn(&NOW, &yes(), &id(), a, -5)), negative);
    assert_eq!(error(token.burn(&NOW, &yes(), &text("none"), a, -5)), negative);
    let lapsed = token.burn_from(&NOW, &yes(), b, &id(), a, i128::MIN);
    assert_eq!(error(lapsed), InvoiceError::AllowanceExpired);
    token.approve(&yes(), a, b, &id(), 5, 50).unwrap();
    assert_eq!(error(token.burn_from(&NOW, &yes(), b, &id(), a, -5)), negative);
    assert_eq!(token.allowance(&NOW, a, b, &id()), 5);
    assert_eq!(token.total_supply(&id()), 0);
    assert_eq!(token.invoice_status(&id()), InvoiceStatus::Created);
    token.issue(&NOW, &yes(), &id(), a, 5).unwrap();
    token.settle(&NOW, &yes(), &id()).unwrap();
    assert_eq!(error(token.redeem(&NOW, &yes(), &id(), a, -1)), negative);
    token.redeem(&NOW, &yes(), &id(), a, 5).unwrap();
    assert_eq!(error(token.burn(&NOW, &yes(), &id(), a, -5)), negative);
    assert_eq!(token.invoice_status(&id()), InvoiceStatus::Redeemed);
    assert_eq!(token.total_supply(&id()), 0);
    assert_eq!(token.balance(a, &id()), 0);
}

#[test]
fn sign_of_an_amount_is_tested_last() {
    let (a, b) = (person(1), person(2));
    let deny = |for_kyc| Replies { transfer: Some(TransferDecision::Deny { for_kyc }), ..yes() };
    let mut token = issued(1_000);
    assert_eq!(error(token.redeem(&NOW, &yes(), &id(), a, -1)), InvoiceError::NotSettled);
    let no_kyc = Replies { kyc: Some(KycState::NotApproved), ..yes() };
    assert_eq!(error(token.issue(&NOW, &no_kyc, &id(), a, -1)), InvoiceError::KycNotApproved);
    let lower = InvoiceMeta { face_value_usd: 600, ..meta() };
    token.update_meta(&yes(), &id(), lower).unwrap();
    assert_eq!(error(token.issue(&NOW, &yes(), &id(), a, -1)), InvoiceError::OverSettlement);
    assert_eq!(error(token.issue(&NOW, &yes(), &id(), a, -400)), InvoiceError::NegativeAmount);
    token.settle(&NOW, &yes(), &id()).unwrap();
    assert_eq!(error(token.redeem(&NOW, &deny(true), &id(), a, -1)), InvoiceError::KycNotApproved);
    assert_eq!(
        error(token.redeem(&NOW, &deny(false), &id(), a, -1)),
        InvoiceError::TransferBlocked
    );
    assert_eq!(error(token.burn(&NOW, &deny(false), &id(), a, -1)), InvoiceError::TransferBlocked);
    assert_eq!(
        error(token.burn_from(&NOW, &deny(true), b, &id(), a, -1)),
        InvoiceError::KycNotApproved
    );
    assert_eq!(error(token.burn(&NOW, &yes(), &id(), a, -1)), InvoiceError::NegativeAmount);
    assert_eq!(token.total_supply(&id()), 1_000);
}

// ---- Errors and events ----

#[test]
fn error_codes() {
    let all = [
        InvoiceError::AlreadyInitialized,
        InvoiceError::AlreadySettled,
        InvoiceError::NotSettled,
        InvoiceError::InsufficientBalance,
        InvoiceError::NegativeAmount,
        InvoiceError::InsufficientAllowance,
        InvoiceError::AllowanceExpired,
        InvoiceError::KycNotApproved,
        InvoiceError::CompliancePaused,
        InvoiceError::Blocklisted,
        InvoiceError::TransferBlocked,
        InvoiceError::PastDueDate,
        InvoiceError::InvoiceNotFound,
        InvoiceError::InvoiceAlreadyExists,
        InvoiceError::InvalidWebhook,
        InvoiceError::InvalidLifecycleTransition,
        InvoiceError::OverSettlement,
        InvoiceError::UnderSettlement,
        InvoiceError::LifecyclePaused,
        InvoiceError::InvalidMetadata,
    ];
    for (i, error) in all.iter().enumerate() {
        assert_eq!(error.code(), i as u32 + 1);
    }
}

#[test]
fn event_topics() {
    let p = person(1);
    let s = text("x");
    let expected = [
        (Event::FeeRecipientSet(p), "fee_role"),
        (Event::FeeExemptionSet(true), "fee_xmpt"),
        (Event::LifecyclePaused, "lc_pause"),
        (Event::LifecycleResumed, "lc_unpse"),
        (Event::InvoiceCreated(s.clone()), "inv_crt"),
        (Event::MetaUpdated, "upd_meta"),
        (
            Event::Issued { to: p, invoice_id: s.clone(), amount: 1, webhook: s.clone() },
            "issued",
        ),
        (Event::Settled { invoice_id: s.clone(), webhook: s.clone() }, "settled"),
        (Event::PartiallySettled { invoice_id: s.clone(), amount: 1 }, "p_settld"),
        (Event::Redeemed { from: p, invoice_id: s.clone(), amount: 1 }, "redeemed"),
        (Event::Burned { from: p, invoice_id: s.clone(), amount: 1 }, "burn"),
        (Event::FeeCheckSkipped(p), "fee_skip"),
        (Event::Transferred { from: p, to: p, invoice_id: s.clone(), amount: 1 }, "transfer"),
        (
            Event::Approved {
                from: p,
                spender: p,
                invoice_id: s,
                amount: 1,
                expiration_ledger: 1,
            },
            "approve",
        ),
    ];
    for (event, topic) in expected {
        assert_eq!(event.topic(), topic);
    }
}

#[test]
fn lifetimes_are_ninety_days() {
    assert_eq!(DAY_IN_LEDGERS, 17_280);
    assert_eq!(BUMP, 1_555_200);
    assert_eq!(THRESHOLD, 1_537_920);
}

#[test]
fn descriptions() {
    assert_eq!(InvoiceToken::name(), "Veritoken Invoice");
    assert_eq!(InvoiceToken::symbol(), "VTINV");
    assert_eq!(InvoiceToken::decimals(), 7);
    assert_eq!(InvoiceToken::version(), "0.1.0");
    assert_eq!(InvoiceToken::on_read().effects, vec![Effect::ExtendInstance]);
}

// ---- Questions and answers ----

#[test]
fn call_asks_one_thing_after_another() {
    let mut token = token_with(with_fee(100, person(9)));
    let mut replies = nothing();
    assert_eq!(
        stop(token.issue(&NOW, &replies, &id(), person(1), 1_000)),
        Stop::Ask(Query::AdminAuth)
    );
    replies.authorized = Some(true);
    assert_eq!(
        stop(token.issue(&NOW, &replies, &id(), person(1), 1_000)),
        Stop::Ask(Query::Kyc(person(1)))
    );
    replies.kyc = Some(KycState::Approved);
    token.issue(&NOW, &replies, &id(), person(1), 1_000).unwrap();

    let mut replies = nothing();
    let mut try_transfer =
        |replies: &Replies| token.transfer(&NOW, replies, &id(), person(1), person(2), 500);
    assert_eq!(stop(try_transfer(&replies)), Stop::Ask(Query::Auth(person(1))));
    replies.authorized = Some(true);
    assert_eq!(
        stop(try_transfer(&replies)),
        Stop::Ask(Query::Transfer { from: person(1), to: person(2), amount: 500 })
    );
    replies.transfer = Some(TransferDecision::Allow);
    assert_eq!(
        stop(try_transfer(&replies)),
        Stop::Ask(Query::FeeTransfer { from: person(1), to: person(9), amount: 5 })
    );
    replies.fee_transfer = Some(TransferDecision::Allow);
    try_transfer(&replies).unwrap();
    assert_eq!(token.balance(person(9), &id()), 5);
}

#[test]
fn creation_asks_for_the_format_of_fields() {
    let mut token = InvoiceToken::new(&Env::default());
    let mut replies = Replies { authorized: Some(true), ..nothing() };
    assert_eq!(
        stop(token.create_invoice(&replies, meta())),
        Stop::Ask(Query::Currency(text("USD")))
    );
    replies.currency = Some(true);
    assert_eq!(
        stop(token.create_invoice(&replies, meta())),
        Stop::Ask(Query::IpfsHash(text("Qm1")))
    );
    replies.ipfs_hash = Some(true);
    token.create_invoice(&replies, meta()).unwrap();
}

#[test]
fn without_authorization_nothing_happens() {
    let no = Replies { authorized: Some(false), ..yes() };
    let mut token = issued(1_000);
    token.approve(&yes(), person(1), person(2), &id(), 100, 50).unwrap();
    let (a, b) = (person(1), person(2));
    assert_eq!(stop(token.create_invoice(&no, meta_of("X"))), Stop::Unauthorized);
    assert_eq!(stop(token.update_meta(&no, &id(), meta())), Stop::Unauthorized);
    assert_eq!(stop(token.issue(&NOW, &no, &id(), a, 1)), Stop::Unauthorized);
    assert_eq!(stop(token.settle(&NOW, &no, &id())), Stop::Unauthorized);
    assert_eq!(stop(token.partial_settle(&NOW, &no, &id(), 1)), Stop::Unauthorized);
    assert_eq!(stop(token.batch_settle(&NOW, &no, &vec![(id(), 1)])), Stop::Unauthorized);
    assert_eq!(stop(token.redeem(&NOW, &no, &id(), a, 1)), Stop::Unauthorized);
    assert_eq!(stop(token.burn(&NOW, &no, &id(), a, 1)), Stop::Unauthorized);
    assert_eq!(stop(token.burn_from(&NOW, &no, b, &id(), a, 1)), Stop::Unauthorized);
    assert_eq!(stop(token.transfer(&NOW, &no, &id(), a, b, 1)), Stop::Unauthorized);
    assert_eq!(stop(token.transfer_from(&NOW, &no, b, &id(), a, b, 1)), Stop::Unauthorized);
    assert_eq!(stop(token.approve(&no, a, b, &id(), 1, 50)), Stop::Unauthorized);
    assert_eq!(stop(token.set_fee_recipient(&no, a)), Stop::Unauthorized);
    assert_eq!(stop(token.set_fee_recipient_exempt(&no, true)), Stop::Unauthorized);
    assert_eq!(stop(token.pause_lifecycle(&no)), Stop::Unauthorized);
    assert_eq!(stop(token.unpause_lifecycle(&no)), Stop::Unauthorized);
    assert_eq!(stop(token.collect_redemption_dust(&no, &id())), Stop::Unauthorized);
    assert_eq!(token.balance(a, &id()), 1_000);
    assert_eq!(token.total_supply(&id()), 1_000);
    assert_eq!(token.allowance(&NOW, a, b, &id()), 100);
    assert!(!token.lifecycle_paused());
}

#[test]
fn denial_is_told_apart_by_its_reason() {
    assert_eq!(require_allowed(TransferDecision::Allow), Ok(()));
    assert_eq!(
        error(require_allowed(TransferDecision::Deny { for_kyc: true })),
        InvoiceError::KycNotApproved
    );
    assert_eq!(
        error(require_allowed(TransferDecision::Deny { for_kyc: false })),
        InvoiceError::TransferBlocked
    );
    let mut token = issued(10);
    let deny = |for_kyc| Replies { transfer: Some(TransferDecision::Deny { for_kyc }), ..yes() };
    assert_eq!(
        error(token.burn(&NOW, &deny(true), &id(), person(1), 1)),
        InvoiceError::KycNotApproved
    );
    assert_eq!(
        error(token.transfer(&NOW, &deny(false), &id(), person(1), person(2), 1)),
        InvoiceError::TransferBlocked
    );
    assert_eq!(
        error(token.set_fee_recipient(&deny(false), person(3))),
        InvoiceError::TransferBlocked
    );
    assert_eq!(token.balance(person(1), &id()), 10);
}

// ---- Metadata and creation ----

#[test]
fn webhook_format() {
    let long = |n: usize| text(&format!("https://{}", "a".repeat(n - 8)));
    assert_eq!(validate_webhook(&text("")), Ok(()));
    assert_eq!(validate_webhook(&text("https://")), Ok(()));
    assert_eq!(validate_webhook(&long(256)), Ok(()));
    for bad in [text("https:/"), text("http://a.example"), text("HTTPS://a"), long(257)] {
        assert_eq!(error(validate_webhook(&bad)), InvoiceError::InvalidWebhook);
    }
}

#[test]
fn metadata_fields() {
    assert_eq!(validate_invoice_meta(&yes(), &meta()), Ok(()));
    assert_eq!(validate_invoice_meta(&yes(), &with_fee(10_000, person(1))), Ok(()));
    let bad_currency = Replies { currency: Some(false), ..yes() };
    let bad_hash = Replies { ipfs_hash: Some(false), ..yes() };
    assert_eq!(error(validate_invoice_meta(&bad_currency, &meta())), InvoiceError::InvalidMetadata);
    assert_eq!(error(validate_invoice_meta(&bad_hash, &meta())), InvoiceError::InvalidMetadata);
    for bad in [
        InvoiceMeta { face_value_usd: 0, ..meta() },
        InvoiceMeta { face_value_usd: -1, ..meta() },
        with_fee(10_001, person(1)),
    ] {
        assert_eq!(error(validate_invoice_meta(&yes(), &bad)), InvoiceError::InvalidMetadata);
    }
}

#[test]
fn constructor_sets_up_the_contract() {
    let mut token = InvoiceToken::new(&Env::default());
    let log = token.__constructor(&yes(), person(1), person(2), person(3), meta()).unwrap();
    assert_eq!(
        log.effects,
        vec![
            Effect::WriteAdmin(person(1)),
            Effect::WriteKycRegistry(person(2)),
            Effect::WriteComplianceEngine(person(3)),
            store(DataKey::InvoiceMeta(id()), true),
            store(DataKey::TotalSupply(id()), true),
            store(DataKey::InvoiceStatus(id()), true),
            store(DataKey::Journal(id()), true),
            store(DataKey::InvoicesList, false),
            Effect::Publish(Event::InvoiceCreated(id())),
        ]
    );
    assert_eq!(token.get_meta(&id()), Ok(meta()));
    assert_eq!(token.invoice_status(&id()), InvoiceStatus::Created);
    assert_eq!(
        error(token.initialize(person(1), person(2), person(3), &meta())),
        InvoiceError::AlreadyInitialized
    );
}

#[test]
fn invoice_is_created_once() {
    let mut token = token_with(meta());
    assert_eq!(error(token.create_invoice(&yes(), meta())), InvoiceError::InvoiceAlreadyExists);
    token.issue(&NOW, &yes(), &id(), person(1), 5).unwrap();
    token.settle(&NOW, &yes(), &id()).unwrap();
    token.redeem(&NOW, &yes(), &id(), person(1), 5).unwrap();
    assert_eq!(error(token.create_invoice(&yes(), meta())), InvoiceError::InvoiceAlreadyExists);
    assert_eq!(token.list_invoices(&Env::default(), 0, 10).len(), 1);
}

#[test]
fn metadata_changes_only_before_settlement() {
    let mut token = token_with(meta());
    let other = InvoiceMeta { due_date: 5_000, ..meta() };
    let log = token.update_meta(&yes(), &id(), other.clone()).unwrap();
    assert_eq!(
        log.effects,
        vec![store(DataKey::InvoiceMeta(id()), false), Effect::Publish(Event::MetaUpdated)]
    );
    assert_eq!(token.get_meta(&id()), Ok(other));
    token.partial_settle(&NOW, &yes(), &id(), 1).unwrap();
    assert_eq!(error(token.update_meta(&yes(), &id(), meta())), InvoiceError::AlreadySettled);
    let bad = InvoiceMeta { notification_webhook: text("ftp://abc"), ..meta() };
    assert_eq!(error(token.update_meta(&yes(), &id(), bad)), InvoiceError::InvalidWebhook);
}

#[test]
fn contracts_around_the_token() {
    let token = token_with(meta());
    assert_eq!(
        token.update_kyc_registry(person(4)).effects,
        vec![Effect::UpdateKycRegistry(person(4))]
    );
    assert_eq!(
        token.update_compliance_engine(person(4)).effects,
        vec![Effect::UpdateComplianceEngine(person(4))]
    );
    assert_eq!(token.propose_admin(person(4)).effects, vec![Effect::ProposeAdmin(person(4))]);
    assert_eq!(token.accept_admin().effects, vec![Effect::AcceptAdmin]);
}

#[test]
fn settings_are_stored_and_read_back() {
    let mut token = token_with(meta());
    assert_eq!(token.get_fee_recipient_role(), None);
    let log = token.set_fee_recipient(&yes(), person(7)).unwrap();
    assert_eq!(
        log.effects,
        vec![
            Effect::ExtendInstance,
            store(DataKey::FeeRecipientRole, false),
            Effect::Publish(Event::FeeRecipientSet(person(7))),
        ]
    );
    assert_eq!(token.get_fee_recipient_role(), Some(person(7)));
    let unknown = Replies { kyc: Some(KycState::NotApproved), ..yes() };
    assert_eq!(
        error(token.set_fee_recipient(&unknown, person(8))),
        InvoiceError::KycNotApproved
    );
    let log = token.set_fee_recipient_exempt(&yes(), true).unwrap();
    assert_eq!(
        log.effects,
        vec![
            Effect::ExtendInstance,
            store(DataKey::FeeRecipientExempt, false),
            Effect::Publish(Event::FeeExemptionSet(true)),
        ]
    );
    assert!(token.is_fee_recipient_exempt());
    let log = token.pause_lifecycle(&yes()).unwrap();
    assert_eq!(events(&log), vec![Event::LifecyclePaused]);
    assert!(token.lifecycle_paused());
    let log = token.unpause_lifecycle(&yes()).unwrap();
    assert_eq!(events(&log), vec![Event::LifecycleResumed]);
    assert!(!token.lifecycle_paused());
}

// ---- Issuance and settlement ----

#[test]
fn first_issuance_opens_the_invoice() {
    let webhook = text("https://hook");
    let mut token =
        token_with(InvoiceMeta { notification_webhook: webhook.clone(), ..meta() });
    let announced = Effect::Publish(Event::Issued {
        to: person(1),
        invoice_id: id(),
        amount: 10,
        webhook,
    });
    let log = token.issue(&NOW, &yes(), &id(), person(1), 10).unwrap();
    assert_eq!(
        log.effects,
        vec![
            Effect::ExtendInstance,
            store(DataKey::Journal(id()), true),
            store(DataKey::InvoiceStatus(id()), true),
            store(DataKey::Balance(person(1), id()), true),
            Effect::RegisterHolder(person(1)),
            store(DataKey::TotalSupply(id()), true),
            announced.clone(),
        ]
    );
    let log = token.issue(&NOW, &yes(), &id(), person(1), 10).unwrap();
    assert_eq!(
        log.effects,
        vec![
            Effect::ExtendInstance,
            store(DataKey::Balance(person(1), id()), true),
            Effect::RegisterHolder(person(1)),
            store(DataKey::TotalSupply(id()), true),
            announced,
        ]
    );
    assert_eq!(token.total_supply(&id()), 20);
    assert_eq!(token.balance(person(1), &id()), 20);
}

#[test]
fn issue_of_nothing_does_not_open_the_invoice() {
    let mut token = token_with(meta());
    let log = token.issue(&NOW, &yes(), &id(), person(1), 0).unwrap();
    assert_eq!(
        log.effects,
        vec![
            Effect::ExtendInstance,
            store(DataKey::Balance(person(1), id()), true),
            Effect::RegisterHolder(person(1)),
            store(DataKey::TotalSupply(id()), true),
            Effect::Publish(Event::Issued {
                to: person(1),
                invoice_id: id(),
                amount: 0,
                webhook: text(""),
            }),
        ]
    );
    assert_eq!(token.invoice_status(&id()), InvoiceStatus::Created);
    assert_eq!(token.get_journal(&id()), vec![]);
    assert_eq!(token.total_supply(&id()), 0);
    token.issue(&NOW, &yes(), &id(), person(1), 1).unwrap();
    assert_eq!(token.invoice_status(&id()), InvoiceStatus::Issued);
    assert_eq!(token.get_journal(&id()).len(), 1);
}

#[test]
fn issuance_errors() {
    let mut token = token_with(meta());
    let unknown = Replies { kyc: Some(KycState::NotApproved), ..yes() };
    assert_eq!(
        error(token.issue(&NOW, &unknown, &id(), person(1), 1)),
        InvoiceError::KycNotApproved
    );
    assert_eq!(
        error(token.issue(&NOW, &yes(), &id(), person(1), FACE + 1)),
        InvoiceError::OverSettlement
    );
    assert_eq!(
        stop(token.issue(&NOW, &yes(), &text("none"), person(1), 1)),
        Stop::MissingInvoice
    );
    token.issue(&NOW, &yes(), &id(), person(1), FACE).unwrap();
    assert_eq!(
        stop(token.issue(&NOW, &yes(), &id(), person(1), i128::MAX)),
        Stop::Overflow
    );
    assert_eq!(token.invoice_status(&id()), InvoiceStatus::Issued);
    token.settle(&NOW, &yes(), &id()).unwrap();
    assert_eq!(
        error(token.issue(&NOW, &yes(), &id(), person(1), 1)),
        InvoiceError::AlreadySettled
    );
}

#[test]
fn full_settlement_is_the_face_value() {
    let mut token = issued(100);
    let log = token.settle(&NOW, &yes(), &id()).unwrap();
    assert_eq!(
        log.effects,
        vec![
            Effect::ExtendInstance,
            store(DataKey::Journal(id()), true),
            store(DataKey::InvoiceStatus(id()), true),
            store(DataKey::SettlementAmount(id()), true),
            store(DataKey::RedemptionDust(id()), true),
            Effect::Publish(Event::Settled { invoice_id: id(), webhook: text("") }),
        ]
    );
    assert_eq!(token.settlement_amount(&id()), FACE);
    assert_eq!(token.collect_redemption_dust(&yes(), &id()), Ok(FACE));
    assert_eq!(error(token.settle(&NOW, &yes(), &id())), InvoiceError::AlreadySettled);
    assert_eq!(stop(token.settle(&NOW, &yes(), &text("none"))), Stop::MissingInvoice);
}

#[test]
fn partial_settlement_errors_come_in_order() {
    let mut token = issued(100);
    token.pause_lifecycle(&yes()).unwrap();
    assert_eq!(
        error(token.partial_settle(&NOW, &yes(), &id(), 0)),
        InvoiceError::LifecyclePaused
    );
    token.unpause_lifecycle(&yes()).unwrap();
    assert_eq!(
        error(token.partial_settle(&NOW, &yes(), &text("none"), 0)),
        InvoiceError::UnderSettlement
    );
    assert_eq!(
        stop(token.partial_settle(&NOW, &yes(), &text("none"), 1)),
        Stop::MissingInvoice
    );
    token.partial_settle(&NOW, &yes(), &id(), 40).unwrap();
    assert_eq!(
        error(token.partial_settle(&NOW, &yes(), &id(), FACE + 1)),
        InvoiceError::OverSettlement
    );
    assert_eq!(
        error(token.partial_settle(&NOW, &yes(), &id(), 40)),
        InvoiceError::AlreadySettled
    );
}

#[test]
fn payment_of_the_face_value_settles_in_full() {
    let mut token = issued(100);
    let log = token.partial_settle(&NOW, &yes(), &id(), FACE).unwrap();
    assert_eq!(
        events(&log),
        vec![Event::PartiallySettled { invoice_id: id(), amount: FACE }]
    );
    assert_eq!(token.invoice_status(&id()), InvoiceStatus::FullySettled);
    assert!(token.is_settled(&id()));
}

#[test]
fn batch_reports_every_error_and_goes_on() {
    let mut token = token_with(meta());
    token.create_invoice(&yes(), meta_of("INV-2")).unwrap();
    let batch = vec![
        (id(), 0),
        (text("none"), 5),
        (id(), FACE + 1),
        (id(), 5),
        (id(), 5),
        (text("INV-2"), FACE),
    ];
    let (results, log) = token.batch_settle(&NOW, &yes(), &batch).unwrap();
    let errors: Vec<Option<u32>> = results.iter().map(|r| r.error).collect();
    assert_eq!(errors, vec![Some(18), Some(13), Some(17), None, Some(2), None]);
    assert_eq!(results[1].invoice_id, text("none"));
    assert_eq!(
        events(&log),
        vec![
            Event::PartiallySettled { invoice_id: id(), amount: 5 },
            Event::PartiallySettled { invoice_id: text("INV-2"), amount: FACE },
        ]
    );
    assert_eq!(token.settlement_amount(&id()), 5);
    assert_eq!(token.invoice_status(&text("INV-2")), InvoiceStatus::FullySettled);
    token.pause_lifecycle(&yes()).unwrap();
    let (results, _) = token.batch_settle(&NOW, &yes(), &vec![(id(), 5)]).unwrap();
    assert_eq!(results[0].error, Some(19));
}

#[test]
fn batch_stops_after_ten() {
    let mut token = token_with(meta());
    let batch: Vec<(ByteString, i128)> = (0..12).map(|_| (id(), 0)).collect();
    let (results, log) = token.batch_settle(&NOW, &yes(), &batch).unwrap();
    assert_eq!(results.len(), 10);
    assert_eq!(log.effects, vec![Effect::ExtendInstance]);
}

#[test]
fn batch_payment_does_what_a_partial_settlement_does() {
    for amount in [-1, 0, 1, FACE, FACE + 1] {
        let mut one = Invoice::blank();
        one.meta = Some(meta());
        let mut other = Invoice::blank();
        other.meta = Some(meta());
        let mut log = EffectLog::new();
        let code = one.try_do_partial_settle(false, &NOW, &id(), amount, &mut log);
        let result = other.partial_settle(false, &NOW, &yes(), &id(), amount);
        assert_eq!(code, result.err().map(|stop| error::<()>(Err(stop)).code()));
        assert_eq!(one.status, other.status);
        assert_eq!(one.settlement, other.settlement);
        assert_eq!(one.dust, other.dust);
        assert_eq!(one.journal, other.journal);
    }
}

// ---- Redemption and burning ----

#[test]
fn last_redemption_closes_the_invoice() {
    let mut token = issued(10);
    token.settle(&NOW, &yes(), &id()).unwrap();
    let log = token.redeem(&NOW, &yes(), &id(), person(1), 4).unwrap();
    let announced = |amount| Effect::Publish(Event::Redeemed { from: person(1), invoice_id: id(), amount });
    assert_eq!(
        log.effects,
        vec![
            Effect::ExtendInstance,
            store(DataKey::Balance(person(1), id()), false),
            store(DataKey::TotalSupply(id()), true),
            store(DataKey::RedemptionDust(id()), true),
            announced(4),
        ]
    );
    let log = token.redeem(&NOW, &yes(), &id(), person(1), 6).unwrap();
    assert_eq!(
        log.effects,
        vec![
            Effect::ExtendInstance,
            store(DataKey::Balance(person(1), id()), false),
            store(DataKey::TotalSupply(id()), true),
            store(DataKey::RedemptionDust(id()), true),
            store(DataKey::Journal(id()), true),
            store(DataKey::InvoiceStatus(id()), true),
            announced(6),
        ]
    );
    assert_eq!(token.invoice_status(&id()), InvoiceStatus::Redeemed);
    assert_eq!(
        error(token.redeem(&NOW, &yes(), &id(), person(1), 0)),
        InvoiceError::NotSettled
    );
}

#[test]
fn dust_is_the_settlement_less_what_was_redeemed() {
    let mut token = issued(100);
    token.issue(&NOW, &yes(), &id(), person(2), 100).unwrap();
    token.partial_settle(&NOW, &yes(), &id(), 500).unwrap();
    token.redeem(&NOW, &yes(), &id(), person(1), 30).unwrap();
    token.redeem(&NOW, &yes(), &id(), person(2), 70).unwrap();
    token.burn(&NOW, &yes(), &id(), person(1), 20).unwrap();
    assert_eq!(token.collect_redemption_dust(&yes(), &id()), Ok(400));
    // Full settlement counts anew.
    token.settle(&NOW, &yes(), &id()).unwrap();
    assert_eq!(token.collect_redemption_dust(&yes(), &id()), Ok(FACE));
    assert_eq!(token.collect_redemption_dust(&yes(), &text("none")), Ok(0));
}

#[test]
fn redemption_never_exceeds_a_payment_below_the_supply() {
    let mut token = token_with(InvoiceMeta { face_value_usd: 1_000, ..meta() });
    token.issue(&NOW, &yes(), &id(), person(1), 1_000).unwrap();
    token.partial_settle(&NOW, &yes(), &id(), 500).unwrap();
    token.redeem(&NOW, &yes(), &id(), person(1), 500).unwrap();
    assert_eq!(token.collect_redemption_dust(&yes(), &id()), Ok(0));
    assert_eq!(error(token.redeem(&NOW, &yes(), &id(), person(1), 1)), InvoiceError::OverSettlement);
    assert_eq!(token.balance(person(1), &id()), 500);
    assert_eq!(token.invoice_status(&id()), InvoiceStatus::PartiallySettled);
    // The rest is redeemed once the rest is paid.
    token.settle(&NOW, &yes(), &id()).unwrap();
    token.redeem(&NOW, &yes(), &id(), person(1), 500).unwrap();
    assert_eq!(token.invoice_status(&id()), InvoiceStatus::Redeemed);
}

#[test]
fn partial_payment_is_not_exceeded_on_the_way_to_redeemed() {
    let mut token = issued(100);
    token.create_invoice(&yes(), meta_of("INV-2")).unwrap();
    token.issue(&NOW, &yes(), &text("INV-2"), person(1), 1_000).unwrap();
    let lower = InvoiceMeta { face_value_usd: 600, ..meta_of("INV-2") };
    token.update_meta(&yes(), &text("INV-2"), lower).unwrap();
    token.settle(&NOW, &yes(), &text("INV-2")).unwrap();
    token.redeem(&NOW, &yes(), &text("INV-2"), person(1), 1_000).unwrap();
    token.partial_settle(&NOW, &yes(), &id(), 50).unwrap();
    token.redeem(&NOW, &yes(), &id(), person(1), 30).unwrap();
    token.burn(&NOW, &yes(), &id(), person(1), 60).unwrap();
    token.redeem(&NOW, &yes(), &id(), person(1), 10).unwrap();
    assert_eq!(token.invoice_status(&id()), InvoiceStatus::Redeemed);
    assert_eq!(token.collect_redemption_dust(&yes(), &id()), Ok(10));
    assert_eq!(token.collect_redemption_dust(&yes(), &text("INV-2")), Ok(-400));
}

#[test]
fn last_holder_gets_what_is_left_of_the_payment() {
    let mut token = issued(50);
    token.issue(&NOW, &yes(), &id(), person(2), 50).unwrap();
    token.partial_settle(&NOW, &yes(), &id(), 50).unwrap();
    token.redeem(&NOW, &yes(), &id(), person(1), 25).unwrap();
    // The share of the second holder is now 50 * 50 / 75, but only 25 are left.
    assert_eq!(error(token.redeem(&NOW, &yes(), &id(), person(2), 26)), InvoiceError::OverSettlement);
    token.redeem(&NOW, &yes(), &id(), person(2), 25).unwrap();
    assert_eq!(token.collect_redemption_dust(&yes(), &id()), Ok(0));
    assert_eq!(error(token.redeem(&NOW, &yes(), &id(), person(1), 1)), InvoiceError::OverSettlement);
}

#[test]
fn full_settlement_after_a_lowered_face_value_pays_the_balance() {
    let mut token = issued(1_000);
    let lower = InvoiceMeta { face_value_usd: 600, ..meta() };
    token.update_meta(&yes(), &id(), lower).unwrap();
    token.settle(&NOW, &yes(), &id()).unwrap();
    token.redeem(&NOW, &yes(), &id(), person(1), 1_000).unwrap();
    assert_eq!(token.collect_redemption_dust(&yes(), &id()), Ok(-400));
}

#[test]
fn full_settlement_lifts_the_entitlement() {
    let mut token = token_with(InvoiceMeta { face_value_usd: 1_000, ..meta() });
    token.issue(&NOW, &yes(), &id(), person(1), 1_000).unwrap();
    token.partial_settle(&NOW, &yes(), &id(), 500).unwrap();
    token.transfer(&NOW, &yes(), &id(), person(1), person(2), 100).unwrap();
    token.settle(&NOW, &yes(), &id()).unwrap();
    token.redeem(&NOW, &yes(), &id(), person(1), 900).unwrap();
    assert_eq!(token.balance(person(1), &id()), 0);
    assert_eq!(token.total_supply(&id()), 100);
}

#[test]
fn used_up_entitlement_leaves_nothing_to_redeem() {
    let mut token = token_with(InvoiceMeta { face_value_usd: 1_000, ..meta() });
    token.issue(&NOW, &yes(), &id(), person(1), 1_000).unwrap();
    token.partial_settle(&NOW, &yes(), &id(), 500).unwrap();
    token.transfer(&NOW, &yes(), &id(), person(1), person(2), 100).unwrap();
    token.redeem(&NOW, &yes(), &id(), person(1), 500).unwrap();
    assert_eq!(error(token.redeem(&NOW, &yes(), &id(), person(1), 1)), InvoiceError::OverSettlement);
    assert_eq!(token.balance(person(1), &id()), 400);
    assert_eq!(token.total_supply(&id()), 500);
}

#[test]
fn redemption_stays_within_a_settlement_that_covers_the_supply() {
    let mut token = issued(60);
    token.issue(&NOW, &yes(), &id(), person(2), 40).unwrap();
    token.partial_settle(&NOW, &yes(), &id(), 100).unwrap();
    token.redeem(&NOW, &yes(), &id(), person(1), 60).unwrap();
    token.redeem(&NOW, &yes(), &id(), person(2), 40).unwrap();
    assert_eq!(token.collect_redemption_dust(&yes(), &id()), Ok(0));
    assert_eq!(token.invoice_status(&id()), InvoiceStatus::Redeemed);
}

#[test]
fn transfer_during_partial_settlement_caps_the_sender() {
    let mut token = issued(100);
    token.partial_settle(&NOW, &yes(), &id(), 40).unwrap();
    let log = token.transfer(&NOW, &yes(), &id(), person(1), person(2), 50).unwrap();
    assert_eq!(
        log.effects,
        vec![
            Effect::ExtendInstance,
            store(DataKey::SettledEntitlement(id(), person(1)), true),
            store(DataKey::Balance(person(1), id()), true),
            store(DataKey::Balance(person(2), id()), true),
            Effect::RegisterHolder(person(2)),
            Effect::Publish(Event::Transferred {
                from: person(1),
                to: person(2),
                invoice_id: id(),
                amount: 50,
            }),
        ]
    );
    assert_eq!(
        error(token.redeem(&NOW, &yes(), &id(), person(1), 41)),
        InvoiceError::OverSettlement
    );
    // A second transfer takes the lesser of 40 and 50 * 40 / 100.
    token.transfer(&NOW, &yes(), &id(), person(1), person(2), 10).unwrap();
    assert_eq!(
        error(token.redeem(&NOW, &yes(), &id(), person(1), 21)),
        InvoiceError::OverSettlement
    );
    let log = token.redeem(&NOW, &yes(), &id(), person(1), 15).unwrap();
    assert!(log.effects.contains(&store(DataKey::SettledEntitlement(id(), person(1)), true)));
    // The entitlement is used up, and stays on record.
    let log = token.redeem(&NOW, &yes(), &id(), person(1), 5).unwrap();
    assert!(log.effects.contains(&store(DataKey::SettledEntitlement(id(), person(1)), true)));
    assert_eq!(
        error(token.redeem(&NOW, &yes(), &id(), person(1), 1)),
        InvoiceError::OverSettlement
    );
}

#[test]
fn entitlement_stays_on_record_when_used_up() {
    let mut invoice = Invoice::blank();
    invoice.meta = Some(meta());
    invoice.issue(&NOW, &yes(), &id(), person(1), 50).unwrap();
    invoice.issue(&NOW, &yes(), &id(), person(3), 50).unwrap();
    invoice.partial_settle(false, &NOW, &yes(), &id(), 80).unwrap();
    invoice.transfer(false, &NOW, &yes(), &id(), person(1), person(2), 1).unwrap();
    assert_eq!(invoice.entitlement(person(1)), Some(40));
    assert_eq!(invoice.entitlement(person(2)), None);
    invoice.redeem(false, &NOW, &yes(), &id(), person(1), 30).unwrap();
    assert_eq!(invoice.entitlement(person(1)), Some(10));
    invoice.redeem(false, &NOW, &yes(), &id(), person(1), 10).unwrap();
    assert_eq!(invoice.entitlement(person(1)), Some(0));
    // There is more of the settlement, but not for this holder, not even after getting tokens.
    assert_eq!(invoice.dust, Some(40));
    invoice.transfer(false, &NOW, &yes(), &id(), person(3), person(1), 20).unwrap();
    let refused = invoice.redeem(false, &NOW, &yes(), &id(), person(1), 1);
    assert_eq!(error(refused), InvoiceError::OverSettlement);
    // After full settlement there is no cap, and the entitlement does not go below nothing.
    invoice.settle(false, &NOW, &yes(), &id()).unwrap();
    invoice.redeem(false, &NOW, &yes(), &id(), person(1), 29).unwrap();
    assert_eq!(invoice.entitlement(person(1)), Some(0));
    assert_eq!(invoice.balance(person(1)), 0);
}

#[test]
fn burning_works_in_every_state() {
    let mut token = issued(10);
    let log = token.burn(&NOW, &yes(), &id(), person(1), 3).unwrap();
    assert_eq!(
        log.effects,
        vec![
            store(DataKey::Balance(person(1), id()), false),
            store(DataKey::TotalSupply(id()), true),
            Effect::Publish(Event::Burned { from: person(1), invoice_id: id(), amount: 3 }),
        ]
    );
    assert_eq!(
        error(token.burn(&NOW, &yes(), &id(), person(1), 8)),
        InvoiceError::InsufficientBalance
    );
    // Before settlement, an empty invoice stays open.
    token.burn(&NOW, &yes(), &id(), person(1), 7).unwrap();
    assert_eq!(token.invoice_status(&id()), InvoiceStatus::Issued);
    token.issue(&NOW, &yes(), &id(), person(1), 5).unwrap();
    token.settle(&NOW, &yes(), &id()).unwrap();
    token.burn(&NOW, &yes(), &id(), person(1), 5).unwrap();
    assert_eq!(token.invoice_status(&id()), InvoiceStatus::Redeemed);
}

#[test]
fn burning_by_allowance() {
    let mut token = issued(10);
    assert_eq!(
        error(token.burn_from(&NOW, &yes(), person(2), &id(), person(1), 1)),
        InvoiceError::InsufficientAllowance
    );
    token.approve(&yes(), person(1), person(2), &id(), 20, 39).unwrap();
    assert_eq!(
        error(token.burn_from(&NOW, &yes(), person(2), &id(), person(1), 1)),
        InvoiceError::AllowanceExpired
    );
    token.approve(&yes(), person(1), person(2), &id(), 20, 40).unwrap();
    assert_eq!(
        error(token.burn_from(&NOW, &yes(), person(2), &id(), person(1), 11)),
        InvoiceError::InsufficientBalance
    );
    let log = token.burn_from(&NOW, &yes(), person(2), &id(), person(1), 4).unwrap();
    assert_eq!(log.effects[0], store(DataKey::Allowance(person(1), person(2), id()), false));
    assert_eq!(token.allowance(&NOW, person(1), person(2), &id()), 16);
    assert_eq!(token.total_supply(&id()), 6);
}

#[test]
fn pausing_blocks_settlement_and_redemption_only() {
    let mut token = issued(10);
    token.partial_settle(&NOW, &yes(), &id(), 10).unwrap();
    token.pause_lifecycle(&yes()).unwrap();
    assert_eq!(error(token.settle(&NOW, &yes(), &id())), InvoiceError::LifecyclePaused);
    assert_eq!(
        error(token.redeem(&NOW, &yes(), &id(), person(1), 1)),
        InvoiceError::LifecyclePaused
    );
    token.transfer(&NOW, &yes(), &id(), person(1), person(2), 1).unwrap();
    token.burn(&NOW, &yes(), &id(), person(1), 1).unwrap();
    token.approve(&yes(), person(1), person(2), &id(), 1, 50).unwrap();
    assert_eq!(token.total_supply(&id()), 9);
}

// ---- Transfers and allowances ----

#[test]
fn transfers_end_with_the_due_date_and_settlement() {
    let mut token = token_with(meta());
    let (a, b) = (person(1), person(2));
    assert_eq!(
        error(token.transfer(&NOW, &yes(), &id(), a, b, 1)),
        InvoiceError::InvalidLifecycleTransition
    );
    token.issue(&NOW, &yes(), &id(), a, 10).unwrap();
    let due = Ledger { sequence: 40, timestamp: 2_000 };
    let late = Ledger { sequence: 40, timestamp: 2_001 };
    token.transfer(&due, &yes(), &id(), a, b, 1).unwrap();
    assert_eq!(error(token.transfer(&late, &yes(), &id(), a, b, 1)), InvoiceError::PastDueDate);
    assert_eq!(
        error(token.transfer(&NOW, &yes(), &id(), a, b, -1)),
        InvoiceError::NegativeAmount
    );
    assert_eq!(
        error(token.transfer(&NOW, &yes(), &id(), a, b, 10)),
        InvoiceError::InsufficientBalance
    );
    token.settle(&NOW, &yes(), &id()).unwrap();
    assert_eq!(error(token.transfer(&NOW, &yes(), &id(), a, b, 1)), InvoiceError::AlreadySettled);
}

#[test]
fn transfer_with_fee_conserves_the_tokens() {
    let (a, b, r) = (person(1), person(2), person(9));
    let mut token = token_with(with_fee(250, r));
    token.issue(&NOW, &yes(), &id(), a, 1_000).unwrap();
    token.transfer(&NOW, &yes(), &id(), a, b, 401).unwrap();
    assert_eq!(token.balance(a, &id()), 599);
    assert_eq!(token.balance(b, &id()), 391);
    assert_eq!(token.balance(r, &id()), 10);
    assert_eq!(token.total_supply(&id()), 1_000);
    // To oneself, and to the recipient of the fee.
    token.transfer(&NOW, &yes(), &id(), a, a, 400).unwrap();
    assert_eq!(token.balance(a, &id()), 589);
    assert_eq!(token.balance(r, &id()), 20);
    token.transfer(&NOW, &yes(), &id(), a, r, 400).unwrap();
    assert_eq!(token.balance(r, &id()), 420);
    token.transfer(&NOW, &yes(), &id(), r, b, 400).unwrap();
    assert_eq!(token.balance(r, &id()), 30);
    assert_eq!(token.balance(b, &id()), 781);
    assert_eq!(token.balance(a, &id()), 189);
}

#[test]
fn exemption_skips_the_fee_check() {
    let (a, b, r) = (person(1), person(2), person(9));
    let mut token = token_with(with_fee(250, r));
    token.issue(&NOW, &yes(), &id(), a, 1_000).unwrap();
    let denied =
        Replies { fee_transfer: Some(TransferDecision::Deny { for_kyc: true }), ..yes() };
    assert_eq!(
        error(token.transfer(&NOW, &denied, &id(), a, b, 400)),
        InvoiceError::KycNotApproved
    );
    assert_eq!(token.balance(a, &id()), 1_000);
    token.set_fee_recipient_exempt(&yes(), true).unwrap();
    let log = token.transfer(&NOW, &denied, &id(), a, b, 400).unwrap();
    assert_eq!(
        log.effects,
        vec![
            Effect::ExtendInstance,
            store(DataKey::Balance(a, id()), true),
            store(DataKey::Balance(b, id()), true),
            Effect::Publish(Event::FeeCheckSkipped(r)),
            store(DataKey::Balance(r, id()), true),
            Effect::RegisterHolder(r),
            Effect::RegisterHolder(b),
            Effect::Publish(Event::Transferred { from: a, to: b, invoice_id: id(), amount: 400 }),
        ]
    );
    // Without a fee there is nothing to skip.
    let log = token.transfer(&NOW, &denied, &id(), a, b, 39).unwrap();
    assert_eq!(events(&log).len(), 1);
}

#[test]
fn balance_stays_within_128_bits() {
    let mut invoice = Invoice::blank();
    invoice.meta = Some(meta());
    invoice.status = InvoiceStatus::Issued;
    invoice.balances.insert(person(1), 5);
    invoice.balances.insert(person(2), i128::MAX);
    assert_eq!(
        stop(invoice.transfer(false, &NOW, &yes(), &id(), person(1), person(2), 1)),
        Stop::Overflow
    );
    assert_eq!(invoice.balance(person(1)), 5);
}

#[test]
fn delegated_transfer_and_burn_do_what_direct_ones_do() {
    let (a, b) = (person(1), person(2));
    let prepared = || {
        let mut token = issued(10);
        token.approve(&yes(), a, b, &id(), 100, 50).unwrap();
        token
    };
    let (mut direct, mut delegated) = (prepared(), prepared());
    let one = direct.transfer(&NOW, &yes(), &id(), a, b, 4).unwrap();
    let other = delegated.transfer_from(&NOW, &yes(), b, &id(), a, b, 4).unwrap();
    assert_eq!(one.effects[1..], other.effects[1..]);
    let one = direct.burn(&NOW, &yes(), &id(), a, 5).unwrap();
    let other = delegated.burn_from(&NOW, &yes(), b, &id(), a, 5).unwrap();
    assert_eq!(one.effects[..], other.effects[1..]);
    assert_eq!(direct.balance(a, &id()), delegated.balance(a, &id()));
    assert_eq!(direct.total_supply(&id()), delegated.total_supply(&id()));
    assert_eq!(
        error(direct.burn(&NOW, &yes(), &id(), a, 5)),
        error(delegated.burn_from(&NOW, &yes(), b, &id(), a, 5))
    );
    assert_eq!(delegated.allowance(&NOW, a, b, &id()), 91);
}

#[test]
fn allowance_lasts_to_its_last_ledger() {
    let mut token = issued(10);
    let (a, b) = (person(1), person(2));
    assert_eq!(error(token.approve(&yes(), a, b, &id(), -1, 50)), InvoiceError::NegativeAmount);
    let log = token.approve(&yes(), a, b, &id(), 6, 50).unwrap();
    assert_eq!(
        log.effects,
        vec![
            store(DataKey::Allowance(a, b, id()), true),
            Effect::Publish(Event::Approved {
                from: a,
                spender: b,
                invoice_id: id(),
                amount: 6,
                expiration_ledger: 50,
            }),
        ]
    );
    let at = |sequence| Ledger { sequence, timestamp: 1_000 };
    assert_eq!(token.allowance(&at(50), a, b, &id()), 6);
    assert_eq!(token.allowance(&at(51), a, b, &id()), 0);
    assert_eq!(token.allowance(&NOW, b, a, &id()), 0);
    assert_eq!(token.allowance(&NOW, a, b, &text("none")), 0);
    assert_eq!(
        error(token.transfer_from(&at(51), &yes(), b, &id(), a, b, 7)),
        InvoiceError::AllowanceExpired
    );
    assert_eq!(
        error(token.transfer_from(&at(50), &yes(), b, &id(), a, b, 7)),
        InvoiceError::InsufficientAllowance
    );
    let log = token.transfer_from(&at(50), &yes(), b, &id(), a, person(3), 4).unwrap();
    assert_eq!(
        log.effects,
        vec![
            store(DataKey::Allowance(a, b, id()), false),
            store(DataKey::Balance(a, id()), true),
            store(DataKey::Balance(person(3), id()), true),
            Effect::RegisterHolder(person(3)),
            Effect::Publish(Event::Transferred {
                from: a,
                to: person(3),
                invoice_id: id(),
                amount: 4,
            }),
        ]
    );
    assert_eq!(token.allowance(&at(50), a, b, &id()), 2);
    assert_eq!(token.balance(a, &id()), 6);
    assert_eq!(token.balance(person(3), &id()), 4);
}

// ---- Journal ----

#[test]
fn journal_tells_the_whole_way() {
    let mut token = token_with(meta());
    let at = |n: u32| Ledger { sequence: n, timestamp: 10 * n as u64 };
    token.issue(&at(1), &yes(), &id(), person(1), 10).unwrap();
    token.issue(&at(2), &yes(), &id(), person(1), 10).unwrap();
    token.partial_settle(&at(3), &yes(), &id(), 20).unwrap();
    token.settle(&at(4), &yes(), &id()).unwrap();
    token.redeem(&at(5), &yes(), &id(), person(1), 20).unwrap();
    let entry = |from_status, to_status, n: u32| JournalEntry {
        from_status,
        to_status,
        ledger: n,
        timestamp: 10 * n as u64,
    };
    assert_eq!(
        token.get_journal(&id()),
        vec![
            entry(InvoiceStatus::Created, InvoiceStatus::Issued, 1),
            entry(InvoiceStatus::Issued, InvoiceStatus::PartiallySettled, 3),
            entry(InvoiceStatus::PartiallySettled, InvoiceStatus::FullySettled, 4),
            entry(InvoiceStatus::FullySettled, InvoiceStatus::Redeemed, 5),
        ]
    );
    assert_eq!(token.get_journal(&text("none")), vec![]);
}

// ---- The host's strings and lists ----

#[test]
fn pages_join_to_the_whole_list() {
    let env = Env::default();
    let mut token = InvoiceToken::new(&env);
    for n in 0..60 {
        token.create_invoice(&yes(), meta_of(&format!("INV-{n}"))).unwrap();
    }
    let page = |start, limit| {
        let ids = token.list_invoices(&env, start, limit);
        (0..ids.len()).map(|i| ids.get(i)).collect::<Vec<ByteString>>()
    };
    assert_eq!(page(0, 60).len(), 50);
    assert_eq!(page(0, u32::MAX).len(), 50);
    assert_eq!(page(50, 50).len(), 10);
    assert_eq!(page(60, 1), vec![]);
    assert_eq!(page(3, 0), vec![]);
    assert_eq!(page(7, 2), vec![text("INV-7"), text("INV-8")]);
    let mut whole = page(0, 25);
    whole.extend(page(25, 25));
    whole.extend(page(50, 25));
    let expected: Vec<ByteString> = (0..60).map(|n| text(&format!("INV-{n}"))).collect();
    assert_eq!(whole, expected);
}

#[test]
fn host_list_is_read_if_it_holds_strings() {
    let env = Env::default();
    let host = |s: &str| soroban_sdk::String::from_str(&env, s);
    let list = soroban_sdk::Vec::from_array(&env, [host("a"), host(""), host("bc")]);
    let mut ids = IdList::read(list.clone()).unwrap();
    assert_eq!(ids.len(), 3);
    assert_eq!(ids.get(1), text(""));
    assert_eq!(ids.get(2), text("bc"));
    ids.push(&text("d"));
    assert_eq!(ids.len(), 4);
    assert_eq!(ids.get(3), text("d"));
    assert_eq!(ids.as_host().get(3), Some(host("d")));
    assert_eq!(list.len(), 3);

    let numbers = soroban_sdk::Vec::<u32>::from_array(&env, [1, 2]);
    let mistaken =
        soroban_sdk::Vec::<soroban_sdk::String>::try_from_val(&env, &numbers.to_val()).unwrap();
    assert!(IdList::read(mistaken).is_none());
}

#[test]
fn host_strings_are_read_byte_by_byte() {
    let env = Env::default();
    let bytes = [0u8, 255, 104, 13];
    let host = soroban_sdk::String::from_bytes(&env, &bytes);
    assert_eq!(ByteString::read(&host).bytes, bytes.to_vec());
    let raw = InvoiceMeta {
        invoice_id: soroban_sdk::String::from_str(&env, "id"),
        issuer: soroban_sdk::String::from_str(&env, "issuer"),
        debtor: soroban_sdk::String::from_str(&env, "debtor"),
        face_value_usd: 3,
        discount_rate_bps: 4,
        due_date: 5,
        currency: soroban_sdk::String::from_str(&env, "USD"),
        ipfs_doc_hash: soroban_sdk::String::from_str(&env, "hash"),
        transfer_fee_bps: 6,
        fee_recipient: Some(person(7)),
        notification_webhook: soroban_sdk::String::from_str(&env, "https://x"),
    };
    assert_eq!(
        InvoiceMeta::read(&raw),
        InvoiceMeta {
            invoice_id: text("id"),
            issuer: text("issuer"),
            debtor: text("debtor"),
            face_value_usd: 3,
            discount_rate_bps: 4,
            due_date: 5,
            currency: text("USD"),
            ipfs_doc_hash: text("hash"),
            transfer_fee_bps: 6,
            fee_recipient: Some(person(7)),
            notification_webhook: text("https://x"),
        }
    );
}

// ---- Tables ----

#[test]
fn table_keeps_one_value_for_each_key() {
    let mut table: Table<(Address, Address), AllowanceValue> = Table::new();
    let value = |amount| AllowanceValue { amount, expiration_ledger: 1 };
    let (ab, ba) = ((person(1), person(2)), (person(2), person(1)));
    table.insert(ab, value(1));
    table.insert(ba, value(2));
    table.insert(ab, value(3));
    assert_eq!(table.get(&ab), Some(&value(3)));
    assert_eq!(table.get(&ba), Some(&value(2)));
    assert_eq!(table.remove(&ab), Some(value(3)));
    assert_eq!(table.remove(&ab), None);
    assert_eq!(table.get(&ab), None);
    assert_eq!(table.get(&ba), Some(&value(2)));
}

#[test]
fn invoices_are_independent() {
    let mut token = issued(10);
    token.create_invoice(&yes(), meta_of("INV-2")).unwrap();
    token.settle(&NOW, &yes(), &text("INV-2")).unwrap();
    assert_eq!(token.invoice_status(&id()), InvoiceStatus::Issued);
    assert_eq!(token.balance(person(1), &text("INV-2")), 0);
    assert_eq!(token.settlement_amount(&id()), 0);
    assert!(!token.is_settled(&id()));
    assert_eq!(token.get_meta(&text("none")), Err(Stop::MissingInvoice));
}
