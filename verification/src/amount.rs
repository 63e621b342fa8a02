//! Arithmetic on amounts: fees, shares of a settlement, discounting.

use crate::step::{fits, product, verdict_of, InTurn, Stop, Verdict};
use crate::types::InvoiceMeta;
use vstd::prelude::*;

verus! {

/// The lesser of two amounts.
pub open spec fn lesser(a: i128, b: i128) -> i128 {
    if a <= b {
        a
    } else {
        b
    }
}

/// The lesser of two amounts.
pub(crate) fn min(a: i128, b: i128) -> (least: i128)
    ensures
        least == lesser(a, b),
{
    if a <= b {
        a
    } else {
        b
    }
}

/// The 128-bit integer that is nearest to `n`.
pub open spec fn saturated(n: int) -> i128 {
    if n < i128::MIN {
        i128::MIN
    } else if n > i128::MAX {
        i128::MAX
    } else {
        n as i128
    }
}

/// The difference, or the nearest 128-bit integer.
pub(crate) fn saturating_difference(a: i128, b: i128) -> (n: i128)
    ensures
        n == saturated(a - b),
{
    match a.checked_sub(b) {
        Some(n) => n,
        None => {
            if b > 0 {
                i128::MIN
            } else {
                i128::MAX
            }
        },
    }
}

/// The quotient, rounded toward zero.
pub open spec fn quotient(a: int, b: int) -> int
    recommends
        b > 0,
{
    if a >= 0 {
        a / b
    } else {
        -((-a) / b)
    }
}

/// The quotient, rounded toward zero.
pub(crate) fn divide(a: i128, b: i128) -> (n: i128)
    requires
        b > 0,
    ensures
        n == quotient(a as int, b as int),
{
    if a >= 0 {
        let n: u128 = (a as u128) / (b as u128);
        assert(n <= a) by (nonlinear_arith)
            requires
                n == a as int / b as int,
                a >= 0,
                b > 0,
        ;
        n as i128
    } else {
        let magnitude: u128 = (-(a + 1)) as u128 + 1;
        let n: u128 = magnitude / (b as u128);
        assert(n <= magnitude) by (nonlinear_arith)
            requires
                n == magnitude / (b as u128),
                b > 0,
        ;
        if n == 0 {
            0
        } else {
            -((n - 1) as i128) - 1
        }
    }
}

/// The bits of a signed integer, read as an unsigned one.
pub open spec fn unsigned(n: i128) -> int {
    if n < 0 {
        n + u128::MAX + 1
    } else {
        n as int
    }
}

/// The bits of an unsigned integer, read as a signed one.
pub open spec fn signed(n: u128) -> int {
    if n > i128::MAX {
        n - u128::MAX - 1
    } else {
        n as int
    }
}

/// The bits of a signed integer, read as an unsigned one.
pub(crate) fn to_unsigned(n: i128) -> (bits: u128)
    ensures
        bits == unsigned(n),
{
    if n >= 0 {
        n as u128
    } else {
        u128::MAX - ((-(n + 1)) as u128)
    }
}

/// The bits of an unsigned integer, read as a signed one.
pub(crate) fn to_signed(n: u128) -> (number: i128)
    ensures
        number == signed(n),
{
    if n <= i128::MAX as u128 {
        n as i128
    } else {
        -((u128::MAX - n) as i128) - 1
    }
}

/// The share of a settlement that a balance out of the supply is worth, rounded down:
/// nothing where the product of balance and settlement exceeds 128 bits.
pub open spec fn share(balance: i128, settlement: i128, supply: i128) -> u128
    recommends
        settlement > 0,
        supply > 0,
{
    let total = unsigned(balance) * settlement;
    if total > u128::MAX {
        0
    } else {
        (total / supply as int) as u128
    }
}

/// The share of a settlement that a balance out of the supply is worth.
pub(crate) fn settlement_share(balance: i128, settlement: i128, supply: i128) -> (worth: u128)
    requires
        settlement > 0,
        supply > 0,
    ensures
        worth == share(balance, settlement, supply),
{
    match to_unsigned(balance).checked_mul(settlement as u128) {
        Some(total) => {
            let worth: u128 = total / (supply as u128);
            worth
        },
        None => 0,
    }
}

/// Whether transfers of the invoice cost a fee.
pub open spec fn charges_fee<S>(meta: InvoiceMeta<S>) -> bool {
    meta.transfer_fee_bps > 0 && meta.fee_recipient is Some
}

/// The fee on a transfer: the given basis points of the amount, rounded down.
pub open spec fn fee_of<S>(meta: InvoiceMeta<S>, amount: i128) -> int {
    if charges_fee(meta) {
        quotient(amount * meta.transfer_fee_bps, 10_000)
    } else {
        0
    }
}

/// The fee can be computed.
pub open spec fn fee_fits<S>(meta: InvoiceMeta<S>, amount: i128) -> Verdict {
    if charges_fee(meta) {
        fits(amount * meta.transfer_fee_bps)
    } else {
        Ok(())
    }
}

/// The fee on a transfer.
pub fn transfer_fee(meta: &InvoiceMeta, amount: i128) -> (result: Result<i128, Stop>)
    ensures
        verdict_of(result) == fee_fits(meta@, amount),
        result matches Ok(fee) ==> fee == fee_of(meta@, amount),
{
    if meta.transfer_fee_bps > 0 && meta.fee_recipient.is_some() {
        let total: i128 = product(amount, meta.transfer_fee_bps as i128)?;
        Ok(divide(total, 10_000))
    } else {
        Ok(0)
    }
}

/// Whole days from `now` until the due date, none after it.
pub open spec fn days_to_maturity(due_date: u64, now: u64) -> int {
    if due_date > now {
        (due_date - now) / 86400
    } else {
        0
    }
}

/// The discount of the face value for the days to maturity, at a yearly rate in basis
/// points, rounded toward zero.
pub open spec fn discount(face_value: i128, rate_bps: u32, days: int) -> int {
    quotient(face_value * rate_bps * days, 365int * 10_000)
}

/// The discount can be computed.
pub open spec fn discount_fits(face_value: i128, rate_bps: u32, days: int) -> Verdict {
    fits(face_value * rate_bps).and_next(fits(face_value * rate_bps * days))
}

/// The face value less the discount, and never negative.
pub open spec fn discounted(face_value: i128, rate_bps: u32, days: int) -> int {
    let value = face_value - discount(face_value, rate_bps, days);
    if value < 0 {
        0
    } else {
        value
    }
}

/// The face value, discounted from the due date to `now`.
pub fn discounted_value(meta: &InvoiceMeta, now: u64) -> (result: Result<i128, Stop>)
    ensures
        verdict_of(result) == discount_fits(
            meta.face_value_usd,
            meta.discount_rate_bps,
            days_to_maturity(meta.due_date, now),
        ),
        result matches Ok(value) ==> value == discounted(
            meta.face_value_usd,
            meta.discount_rate_bps,
            days_to_maturity(meta.due_date, now),
        ),
{
    let left: u64 = if meta.due_date > now {
        meta.due_date - now
    } else {
        0
    };
    let days: i128 = (left / 86400) as i128;
    let yearly: i128 = product(meta.face_value_usd, meta.discount_rate_bps as i128)?;
    let total: i128 = product(yearly, days)?;
    let discount: i128 = divide(total, 365 * 10_000);
    let face: i128 = meta.face_value_usd;
    proof {
        lemma_same_sign(face as int, meta.discount_rate_bps as int, days as int);
    }
    let value: i128 = face - discount;
    if value < 0 {
        Ok(0)
    } else {
        Ok(value)
    }
}

/// The discount of an amount has the sign of the amount.
proof fn lemma_same_sign(face: int, rate: int, days: int)
    requires
        rate >= 0,
        days >= 0,
    ensures
        face >= 0 ==> face * rate * days >= 0,
        face <= 0 ==> face * rate * days <= 0,
{
    assert(face >= 0 ==> face * rate * days >= 0) by (nonlinear_arith)
        requires
            rate >= 0,
            days >= 0,
    ;
    assert(face <= 0 ==> face * rate * days <= 0) by (nonlinear_arith)
        requires
            rate >= 0,
            days >= 0,
    ;
}

} // verus!
