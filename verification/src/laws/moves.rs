//! When tokens move between holders, and what moves.

use crate::amount::{fee_of, share};
use crate::history::{invoice_after, invoice_step, invoice_verdict, InvoiceCall, Setting};
use crate::invoice::InvoiceView;
use crate::laws::reckoning::{law_fee_is_the_rate, law_share_is_in_proportion};
use crate::step::{Query, Stop};
use crate::types::{
    Address, AllowanceValue, InvoiceError, InvoiceMeta, TransferDecision,
};
use vstd::prelude::*;

verus! {

/// A holder has what is on record, and nothing where nothing is on record; so it is with
/// entitlements and allowances.
pub proof fn law_record_is_read_as_it_is(invoice: InvoiceView, holder: Address, spender: Address)
    ensures
        invoice.balances.contains_key(holder) ==> invoice.balance(holder)
            == invoice.balances[holder],
        !invoice.balances.contains_key(holder) ==> invoice.balance(holder) == 0,
        invoice.entitlements.contains_key(holder) ==> invoice.entitlement(holder) == Some(
            invoice.entitlements[holder],
        ),
        !invoice.entitlements.contains_key(holder) ==> invoice.entitlement(holder) is None,
        invoice.allowances.contains_key((holder, spender)) ==> invoice.allowance(holder, spender)
            == invoice.allowances[(holder, spender)],
        !invoice.allowances.contains_key((holder, spender)) ==> invoice.allowance(holder, spender)
            == (AllowanceValue { amount: 0, expiration_ledger: 0 }),
{
}

/// The invoice has a fee on transfers, and someone to pay it to.
pub open spec fn has_fee(meta: InvoiceMeta<Seq<u8>>) -> bool {
    meta.transfer_fee_bps > 0 && meta.fee_recipient is Some
}

/// `fee` is what a transfer of the amount costs: the rate in ten-thousandths, rounded down,
/// where there is a fee, and else nothing.
pub open spec fn is_fee(fee: int, meta: InvoiceMeta<Seq<u8>>, amount: i128) -> bool {
    if has_fee(meta) {
        fee * 10_000 <= amount * meta.transfer_fee_bps < (fee + 1) * 10_000
    } else {
        fee == 0
    }
}

/// The number is a 128-bit integer.
pub open spec fn in_range(n: int) -> bool {
    i128::MIN <= n <= i128::MAX
}

/// There is just one fee.
proof fn lemma_fee(fee: int, meta: InvoiceMeta<Seq<u8>>, amount: i128)
    requires
        amount >= 0,
        is_fee(fee, meta, amount),
    ensures
        fee == fee_of(meta, amount),
        fee >= 0,
{
    law_fee_is_the_rate(meta, amount);
    assert(amount * meta.transfer_fee_bps >= 0) by (nonlinear_arith)
        requires
            amount >= 0,
    ;
}

// ---- When a transfer goes through ----

/// A transfer goes through exactly when the sender authorizes it, tokens have been issued
/// and the invoice is not settled in full, its due date has not passed, the amount is not
/// negative, the compliance engine allows it, the sender has the amount, and the compliance
/// engine allows the fee, if there is one and its recipient is not exempt; as long as all
/// numbers are within 128 bits. Each refusal comes exactly where the condition that it
/// names is the first that fails. The compliance engine is asked about the whole amount, and
/// then about the fee.
pub proof fn law_transfer_goes_through_exactly_when_allowed(
    invoice: InvoiceView,
    s: Setting,
    from: Address,
    to: Address,
    amount: i128,
    fee: int,
)
    requires
        invoice.meta is Some && amount >= 0 ==> is_fee(fee, invoice.meta->0, amount),
    ensures
        ({
            let verdict = invoice_verdict(invoice, s, InvoiceCall::Transfer { from, to, amount });
            let meta = invoice.meta->0;
            let recipient = meta.fee_recipient->0;
            let deny = |decision: Option<TransferDecision>, kyc: bool|
                decision == Some(TransferDecision::Deny { for_kyc: kyc });
            let authorized = s.replies.authorized == Some(true);
            let open = authorized && (invoice.status is Issued || invoice.status
                is PartiallySettled);
            let known = open && invoice.meta is Some;
            let on_time = known && s.ledger.timestamp <= meta.due_date;
            let proper = on_time && amount >= 0;
            let allowed = proper && s.replies.transfer == Some(TransferDecision::Allow);
            let priced = allowed && (has_fee(meta) ==> in_range(amount * meta.transfer_fee_bps));
            let covered = priced && invoice.balance(from) >= amount;
            let left = invoice.balance(from) - amount;
            let received = (if to == from {
                left
            } else {
                invoice.balance(to) as int
            }) + amount - fee;
            let paid = (if recipient == to {
                received
            } else if recipient == from {
                left
            } else {
                invoice.balance(recipient) as int
            }) + fee;
            let fits = covered && in_range(received);
            let checked = fits && (fee > 0 && !s.exempt ==> s.replies.fee_transfer == Some(
                TransferDecision::Allow,
            ));
            &&& verdict is Ok <==> checked && (fee > 0 ==> in_range(paid))
            &&& verdict == refusal(InvoiceError::AlreadySettled) <==> authorized && (
            invoice.status is FullySettled || invoice.status is Redeemed)
            &&& verdict == refusal(InvoiceError::InvalidLifecycleTransition) <==> authorized
                && invoice.status is Created
            &&& verdict == Err::<(), Stop<Seq<u8>>>(Stop::MissingInvoice) <==> open
                && invoice.meta is None
            &&& verdict == refusal(InvoiceError::PastDueDate) <==> known && s.ledger.timestamp
                > meta.due_date
            &&& verdict == refusal(InvoiceError::NegativeAmount) <==> on_time && amount < 0
            &&& verdict == refusal(InvoiceError::InsufficientBalance) <==> priced
                && invoice.balance(from) < amount
            &&& verdict == refusal(InvoiceError::KycNotApproved) <==> proper && deny(
                s.replies.transfer,
                true,
            ) || fits && fee > 0 && !s.exempt && deny(s.replies.fee_transfer, true)
            &&& verdict == refusal(InvoiceError::TransferBlocked) <==> proper && deny(
                s.replies.transfer,
                false,
            ) || fits && fee > 0 && !s.exempt && deny(s.replies.fee_transfer, false)
            &&& verdict == question(Query::Transfer { from, to, amount }) <==> proper
                && s.replies.transfer is None
            &&& fits && fee > 0 && !s.exempt && s.replies.fee_transfer is None ==> verdict
                == question(Query::FeeTransfer { from, to: recipient, amount: fee as i128 })
            &&& verdict == Err::<(), Stop<Seq<u8>>>(Stop::Overflow) <==> {
                ||| allowed && !priced
                ||| covered && !fits
                ||| checked && fee > 0 && !in_range(paid)
            }
        }),
{
    if invoice.meta is Some && amount >= 0 {
        lemma_fee(fee, invoice.meta->0, amount);
        law_fee_is_the_rate(invoice.meta->0, amount);
    }
}

/// A stop with this question.
pub open spec fn question(query: Query<Seq<u8>>) -> Result<(), Stop<Seq<u8>>> {
    Err(Stop::Ask(query))
}

/// A refusal with this error.
pub open spec fn refusal(error: InvoiceError) -> Result<(), Stop<Seq<u8>>> {
    Err(Stop::Error(error))
}

/// A delegated transfer of any amount up to what the spender is allowed, all of it included,
/// goes through exactly when the direct transfer does, up to and in the expiration ledger of
/// the allowance, and is refused for the same reason.
pub proof fn law_allowance_can_be_used_in_full(
    invoice: InvoiceView,
    s: Setting,
    spender: Address,
    from: Address,
    to: Address,
    amount: i128,
)
    requires
        s.replies.authorized is Some,
        amount <= invoice.allowance(from, spender).amount,
        s.ledger.sequence <= invoice.allowance(from, spender).expiration_ledger,
    ensures
        invoice_verdict(invoice, s, InvoiceCall::TransferFrom { spender, from, to, amount })
            == invoice_verdict(invoice, s, InvoiceCall::Transfer { from, to, amount }),
        invoice_verdict(invoice, s, InvoiceCall::BurnFrom { spender, from, amount })
            == invoice_verdict(invoice, s, InvoiceCall::Burn { from, amount }),
{
}

/// A delegated transfer is refused for its allowance exactly where the allowance has expired,
/// or is less than the amount, and nothing before it refuses the transfer. What comes before
/// it stops the delegated transfer as it stops the direct one.
pub proof fn law_delegated_transfer_needs_an_allowance(
    invoice: InvoiceView,
    s: Setting,
    spender: Address,
    from: Address,
    to: Address,
    amount: i128,
)
    ensures
        ({
            let verdict = invoice_verdict(
                invoice,
                s,
                InvoiceCall::TransferFrom { spender, from, to, amount },
            );
            let allowance = invoice.allowance(from, spender);
            let allowed = s.replies.authorized == Some(true) && (invoice.status is Issued
                || invoice.status is PartiallySettled) && invoice.meta is Some
                && s.ledger.timestamp <= invoice.meta->0.due_date && amount >= 0
                && s.replies.transfer == Some(TransferDecision::Allow);
            let current = allowed && s.ledger.sequence <= allowance.expiration_ledger;
            &&& verdict == refusal(InvoiceError::AllowanceExpired) <==> allowed
                && s.ledger.sequence > allowance.expiration_ledger
            &&& verdict == refusal(InvoiceError::InsufficientAllowance) <==> current
                && allowance.amount < amount
            &&& verdict is Ok ==> current && allowance.amount >= amount
            &&& s.replies.authorized is Some && !allowed ==> verdict == invoice_verdict(
                invoice,
                s,
                InvoiceCall::Transfer { from, to, amount },
            )
        }),
{
}

// ---- What a transfer moves ----

/// After a transfer, direct or delegated and in whatever state the invoice is, the sender has
/// less by the amount, the receiver more by the amount less the fee, and the recipient of
/// the fee more by the fee, which the metadata and the amount alone tell. Where one is
/// another, both changes add up. Nobody else has more or less, and the supply, the metadata,
/// the settlement, the state and the journal are as before.
pub proof fn law_transfer_moves_the_amount_less_the_fee(
    invoice: InvoiceView,
    s: Setting,
    spender: Address,
    from: Address,
    to: Address,
    amount: i128,
    call: InvoiceCall,
    fee: int,
    holder: Address,
)
    requires
        call == (InvoiceCall::Transfer { from, to, amount }) || call == (
        InvoiceCall::TransferFrom { spender, from, to, amount }),
        invoice_verdict(invoice, s, call) is Ok,
        is_fee(fee, invoice.meta->0, amount),
    ensures
        ({
            let after = invoice_step(invoice, s, call);
            &&& 0 <= amount
            &&& 0 <= fee
            &&& after.balance(holder) == invoice.balance(holder) - (if holder == from {
                amount as int
            } else {
                0
            }) + (if holder == to {
                amount - fee
            } else {
                0
            }) + (if has_fee(invoice.meta->0) && invoice.meta->0.fee_recipient == Some(holder) {
                fee
            } else {
                0
            })
            &&& after.supply == invoice.supply
            &&& after.meta == invoice.meta
            &&& after.settlement == invoice.settlement
            &&& after.dust == invoice.dust
            &&& after.status == invoice.status
            &&& after.journal == invoice.journal
            &&& holder != from ==> after.entitlement(holder) == invoice.entitlement(holder)
            &&& call is Transfer ==> after.allowances == invoice.allowances
        }),
{
    lemma_fee(fee, invoice.meta->0, amount);
}

/// A transfer during partial settlement fixes what the sender may redeem at the share of the
/// balance before the transfer, `worth`, or at what an earlier transfer left, if that is
/// less. In any other state it fixes nothing. (A share of more than 127 bits, which no part
/// of the supply has, counts as the signed number of the same bits.)
pub proof fn law_transfer_fixes_the_share(
    invoice: InvoiceView,
    s: Setting,
    spender: Address,
    from: Address,
    to: Address,
    amount: i128,
    call: InvoiceCall,
    worth: int,
)
    requires
        call == (InvoiceCall::Transfer { from, to, amount }) || call == (
        InvoiceCall::TransferFrom { spender, from, to, amount }),
        invoice_verdict(invoice, s, call) is Ok,
        invoice.supply > 0 && invoice.settlement > 0 ==> {
            let total = invoice.balance(from) * invoice.settlement;
            if total <= u128::MAX {
                worth * invoice.supply <= total < (worth + 1) * invoice.supply
            } else {
                worth == 0
            }
        },
    ensures
        ({
            let after = invoice_step(invoice, s, call);
            let fixed = if worth <= i128::MAX {
                worth
            } else {
                worth - u128::MAX - 1
            };
            if invoice.status is PartiallySettled && invoice.supply > 0 && invoice.settlement > 0 {
                &&& invoice.balance(from) <= invoice.supply ==> fixed == worth
                &&& after.entitlement(from) is Some
                &&& match invoice.entitlement(from) {
                    None => after.entitlement(from)->0 == fixed,
                    Some(earlier) => after.entitlement(from)->0 == if earlier <= fixed {
                        earlier as int
                    } else {
                        fixed
                    },
                }
            } else {
                after.entitlements == invoice.entitlements
            }
        }),
{
    if invoice.supply > 0 && invoice.settlement > 0 {
        let balance = invoice.balance(from) as int;
        let settlement = invoice.settlement as int;
        let supply = invoice.supply as int;
        law_share_is_in_proportion(invoice.balance(from), invoice.settlement, invoice.supply);
        let exact = share(invoice.balance(from), invoice.settlement, invoice.supply) as int;
        if balance * settlement <= u128::MAX {
            assert(exact == worth) by (nonlinear_arith)
                requires
                    supply > 0,
                    worth * supply <= balance * settlement < (worth + 1) * supply,
                    exact * supply <= balance * settlement < (exact + 1) * supply,
            ;
            assert(balance <= supply ==> worth <= settlement) by (nonlinear_arith)
                requires
                    supply > 0,
                    settlement > 0,
                    balance >= 0,
                    worth * supply <= balance * settlement,
            ;
        }
    }
}

/// What a spender moves or burns is taken off the allowance; its expiration, and every other
/// allowance, stay.
pub proof fn law_only_the_allowance_used_is_less(
    invoice: InvoiceView,
    s: Setting,
    spender: Address,
    from: Address,
    to: Address,
    amount: i128,
    call: InvoiceCall,
    owner: Address,
    other: Address,
)
    requires
        call == (InvoiceCall::TransferFrom { spender, from, to, amount }) || call == (
        InvoiceCall::BurnFrom { spender, from, amount }),
        invoice_verdict(invoice, s, call) is Ok,
    ensures
        ({
            let before = invoice.allowance(owner, other);
            let after = invoice_step(invoice, s, call).allowance(owner, other);
            &&& after.expiration_ledger == before.expiration_ledger
            &&& after.amount == before.amount - (if owner == from && other == spender {
                amount as int
            } else {
                0
            })
        }),
{
}

// ---- Giving an allowance ----

/// An allowance is given exactly when its owner authorizes it and the amount is not negative,
/// in whatever state the invoice is. It replaces what the spender was allowed before, and
/// changes nothing else.
pub proof fn law_approval_sets_the_allowance(
    invoice: InvoiceView,
    s: Setting,
    from: Address,
    spender: Address,
    amount: i128,
    expiration_ledger: u32,
    owner: Address,
    other: Address,
)
    ensures
        ({
            let call = InvoiceCall::Approve { from, spender, amount, expiration_ledger };
            let verdict = invoice_verdict(invoice, s, call);
            let after = invoice_after(invoice, s, call);
            &&& verdict is Ok <==> s.replies.authorized == Some(true) && amount >= 0
            &&& verdict == refusal(InvoiceError::NegativeAmount) <==> s.replies.authorized == Some(
                true,
            ) && amount < 0
            &&& after.allowance(owner, other) == if owner == from && other == spender {
                AllowanceValue { amount, expiration_ledger }
            } else {
                invoice.allowance(owner, other)
            }
            &&& after == (InvoiceView { allowances: after.allowances, ..invoice })
        }),
{
}

} // verus!
