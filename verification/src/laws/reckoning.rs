//! The amounts that the token reckons with, told by what they have to satisfy.

use crate::amount::{
    days_to_maturity, discount_fits, discounted, fee_fits, fee_of, lesser, saturated, share,
};
use crate::invoice::InvoiceView;
use crate::query::{page, present_value_verdict, usable, value_at};
use crate::types::{AllowanceValue, InvoiceMeta, Ledger};
use vstd::prelude::*;

verus! {

/// The quotient leaves a remainder below the divisor.
proof fn lemma_remainder(n: int, divisor: int)
    requires
        divisor > 0,
    ensures
        (n / divisor) * divisor <= n < (n / divisor + 1) * divisor,
{
    assert((n / divisor) * divisor <= n < (n / divisor + 1) * divisor) by (nonlinear_arith)
        requires
            divisor > 0,
    ;
}

// ---- Shares of a settlement ----

/// The share of a balance in a settlement is to the settlement as the balance is to the
/// supply, rounded down: all whole tokens of it, and not one more. Only where balance times
/// settlement exceeds 128 bits there is no share. A negative balance, which no holder has,
/// counts as the unsigned number of the same bits.
pub proof fn law_share_is_in_proportion(balance: i128, settlement: i128, supply: i128)
    requires
        settlement > 0,
        supply > 0,
    ensures
        ({
            let counted = if balance >= 0 {
                balance as int
            } else {
                balance + u128::MAX + 1
            };
            let worth = share(balance, settlement, supply) as int;
            if counted * settlement <= u128::MAX {
                worth * supply <= counted * settlement < (worth + 1) * supply
            } else {
                worth == 0
            }
        }),
{
    let counted = if balance >= 0 {
        balance as int
    } else {
        balance + u128::MAX + 1
    };
    let total = counted * settlement;
    assert(total >= 0) by (nonlinear_arith)
        requires
            total == counted * settlement,
            counted >= 0,
            settlement > 0,
    ;
    if total <= u128::MAX {
        lemma_remainder(total, supply as int);
        assert(0 <= total / supply as int <= total) by (nonlinear_arith)
            requires
                total >= 0,
                supply > 0,
        ;
    }
}

/// A greater balance never has a lesser share, and the shares of two balances are together
/// no more than the share of both, within 128 bits.
pub proof fn law_shares_add_up(one: i128, other: i128, settlement: i128, supply: i128)
    requires
        one >= 0,
        other >= 0,
        one + other <= i128::MAX,
        settlement > 0,
        supply > 0,
        (one + other) * settlement <= u128::MAX,
    ensures
        ({
            let both = share((one + other) as i128, settlement, supply);
            let apart = share(one, settlement, supply) + share(other, settlement, supply);
            apart <= both <= apart + 1
        }),
{
    let a = one * settlement;
    let b = other * settlement;
    let both = (one + other) * settlement;
    assert(a >= 0 && b >= 0 && both == a + b) by (nonlinear_arith)
        requires
            a == one * settlement,
            b == other * settlement,
            both == (one + other) * settlement,
            one >= 0,
            other >= 0,
            settlement > 0,
    ;
    law_share_is_in_proportion(one, settlement, supply);
    law_share_is_in_proportion(other, settlement, supply);
    law_share_is_in_proportion((one + other) as i128, settlement, supply);
    let x = share(one, settlement, supply) as int;
    let y = share(other, settlement, supply) as int;
    let z = share((one + other) as i128, settlement, supply) as int;
    assert(x + y <= z <= x + y + 1) by (nonlinear_arith)
        requires
            supply > 0,
            x * supply <= a < (x + 1) * supply,
            y * supply <= b < (y + 1) * supply,
            z * supply <= a + b < (z + 1) * supply,
    ;
}

// ---- Fees ----

/// With a rate and a recipient, the fee on an amount is the rate in ten-thousandths of it,
/// rounded down (toward zero, should the amount be negative). Without either there is none.
pub proof fn law_fee_is_the_rate(meta: InvoiceMeta<Seq<u8>>, amount: i128)
    ensures
        meta.transfer_fee_bps > 0 && meta.fee_recipient is Some && amount >= 0 ==> fee_of(
            meta,
            amount,
        ) * 10_000 <= amount * meta.transfer_fee_bps < (fee_of(meta, amount) + 1) * 10_000,
        meta.transfer_fee_bps > 0 && meta.fee_recipient is Some && amount < 0 ==> (fee_of(
            meta,
            amount,
        ) - 1) * 10_000 < amount * meta.transfer_fee_bps <= fee_of(meta, amount) * 10_000,
        meta.transfer_fee_bps == 0 || meta.fee_recipient is None ==> fee_of(meta, amount) == 0,
        fee_fits(meta, amount) is Ok <==> (meta.transfer_fee_bps == 0 || meta.fee_recipient is None
            || i128::MIN <= amount * meta.transfer_fee_bps <= i128::MAX),
        fee_fits(meta, amount) is Err ==> fee_fits(meta, amount)->Err_0 is Overflow,
{
    let total = amount * meta.transfer_fee_bps;
    assert(amount >= 0 ==> total >= 0) by (nonlinear_arith)
        requires
            total == amount * meta.transfer_fee_bps,
    ;
    assert(amount <= 0 ==> total <= 0) by (nonlinear_arith)
        requires
            total == amount * meta.transfer_fee_bps,
    ;
}

// ---- Present value ----

/// The present value of an invoice is its face value less the discount, and never negative.
/// With `days` the whole days to maturity, the discount is the yearly rate, in
/// ten-thousandths, for so many days of 365, rounded down (toward zero, should the face
/// value be negative).
pub proof fn law_present_value_is_exact(
    meta: InvoiceMeta<Seq<u8>>,
    now: u64,
    days: int,
    discount: int,
)
    requires
        days >= 0,
        meta.due_date >= now ==> days * 86_400 <= meta.due_date - now < (days + 1) * 86_400,
        meta.due_date < now ==> days == 0,
        ({
            let exact = meta.face_value_usd * meta.discount_rate_bps * days;
            if meta.face_value_usd >= 0 {
                discount * 3_650_000 <= exact < (discount + 1) * 3_650_000
            } else {
                (discount - 1) * 3_650_000 < exact <= discount * 3_650_000
            }
        }),
    ensures
        days_to_maturity(meta.due_date, now) == days,
        value_at(meta, now) == if meta.face_value_usd >= discount {
            meta.face_value_usd - discount
        } else {
            0
        },
        discounted(meta.face_value_usd, meta.discount_rate_bps, days) == value_at(meta, now),
{
    let face = meta.face_value_usd as int;
    let rate = meta.discount_rate_bps as int;
    let exact = face * rate * days;
    assert(face >= 0 ==> exact >= 0) by (nonlinear_arith)
        requires
            exact == face * rate * days,
            rate >= 0,
            days >= 0,
    ;
    assert(face <= 0 ==> exact <= 0) by (nonlinear_arith)
        requires
            exact == face * rate * days,
            rate >= 0,
            days >= 0,
    ;
}

/// The present value can be told of every invoice on record, as long as face value times
/// rate, and that times the days to maturity, are within 128 bits.
pub proof fn law_present_value_can_be_told(invoice: InvoiceView, ledger: Ledger, days: int)
    requires
        invoice.meta matches Some(meta) ==> {
            &&& days >= 0
            &&& meta.due_date >= ledger.timestamp ==> days * 86_400 <= meta.due_date
                - ledger.timestamp < (days + 1) * 86_400
            &&& meta.due_date < ledger.timestamp ==> days == 0
        },
    ensures
        ({
            let verdict = present_value_verdict(invoice, ledger);
            match invoice.meta {
                None => verdict is Err && verdict->Err_0 is MissingInvoice,
                Some(meta) => {
                    let yearly = meta.face_value_usd * meta.discount_rate_bps;
                    &&& verdict is Ok <==> i128::MIN <= yearly <= i128::MAX && i128::MIN <= yearly
                        * days <= i128::MAX
                    &&& verdict is Err ==> verdict->Err_0 is Overflow
                    &&& discount_fits(meta.face_value_usd, meta.discount_rate_bps, days) == verdict
                },
            }
        }),
{
}

// ---- Pages ----

/// A page holds the ids from its start on, in order: as many as asked for, but no more than
/// fifty, and no more than there are.
pub proof fn law_page_is_exact(list: Seq<Seq<u8>>, start: u32, limit: u32)
    ensures
        ({
            let ids = page(list, start, limit);
            let there = if start <= list.len() {
                list.len() - start
            } else {
                0
            };
            &&& ids.len() <= limit && ids.len() <= 50 && ids.len() <= there
            &&& ids.len() == limit || ids.len() == 50 || ids.len() == there
            &&& forall|i: int| 0 <= i < ids.len() ==> #[trigger] ids[i] == list[start + i]
        }),
{
}

// ---- Allowances and bounds ----

/// An allowance can be used in full up to and in its expiration ledger, and not at all
/// afterwards.
pub proof fn law_allowance_is_usable_until_it_expires(allowance: AllowanceValue, ledger: Ledger)
    ensures
        ledger.sequence <= allowance.expiration_ledger ==> usable(allowance, ledger)
            == allowance.amount,
        ledger.sequence > allowance.expiration_ledger ==> usable(allowance, ledger) == 0,
{
}

/// The lesser of two amounts is one of them, and exceeds neither; a saturated number is the
/// nearest one within 128 bits.
pub proof fn law_bounds(a: i128, b: i128, n: int)
    ensures
        lesser(a, b) <= a && lesser(a, b) <= b && (lesser(a, b) == a || lesser(a, b) == b),
        i128::MIN <= n <= i128::MAX ==> saturated(n) == n,
        n < i128::MIN ==> saturated(n) == i128::MIN,
        n > i128::MAX ==> saturated(n) == i128::MAX,
{
}

} // verus!
