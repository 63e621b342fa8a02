//! When tokens are redeemed or burned, and what that changes.

use crate::amount::share;
use crate::history::{invoice_step, invoice_verdict, InvoiceCall, Setting};
use crate::invoice::InvoiceView;
use crate::laws::moves::{in_range, question, refusal};
use crate::laws::reckoning::law_share_is_in_proportion;
use crate::redeem::redemption_cap;
use crate::step::{Query, Stop};
use crate::types::{Address, InvoiceError, InvoiceStatus, JournalEntry, TransferDecision};
use vstd::prelude::*;

verus! {

/// `worth` is the share of the holder's balance in the settlement, rounded down; nothing
/// where balance times settlement exceeds 128 bits, or there is no settlement or supply. A
/// negative balance, which no holder has, counts as the unsigned number of the same bits.
pub open spec fn is_share(worth: int, invoice: InvoiceView, holder: Address) -> bool {
    let counted = if invoice.balance(holder) >= 0 {
        invoice.balance(holder) as int
    } else {
        invoice.balance(holder) + u128::MAX + 1
    };
    let total = counted * invoice.settlement;
    if invoice.settlement > 0 && invoice.supply > 0 && total <= u128::MAX {
        worth * invoice.supply <= total < (worth + 1) * invoice.supply
    } else {
        worth == 0
    }
}

proof fn lemma_share(worth: int, invoice: InvoiceView, holder: Address)
    requires
        is_share(worth, invoice, holder),
    ensures
        invoice.settlement > 0 && invoice.supply > 0 ==> worth == share(
            invoice.balance(holder),
            invoice.settlement,
            invoice.supply,
        ),
{
    if invoice.settlement > 0 && invoice.supply > 0 {
        let balance = invoice.balance(holder);
        let settlement = invoice.settlement as int;
        let supply = invoice.supply as int;
        law_share_is_in_proportion(balance, invoice.settlement, invoice.supply);
        let exact = share(balance, invoice.settlement, invoice.supply) as int;
        let counted = if balance >= 0 {
            balance as int
        } else {
            balance + u128::MAX + 1
        };
        if counted * settlement <= u128::MAX {
            assert(exact == worth) by (nonlinear_arith)
                requires
                    supply > 0,
                    worth * supply <= counted * settlement < (worth + 1) * supply,
                    exact * supply <= counted * settlement < (exact + 1) * supply,
            ;
        }
    }
}

/// The amount is no more than the holder may redeem: after full settlement the balance;
/// during partial settlement what is left of the settlement, and of the holder's
/// entitlement, or, without one, the share `worth` (nothing, should it exceed 127 bits, which
/// no part of the supply does).
pub open spec fn is_within_cap(
    amount: i128,
    invoice: InvoiceView,
    holder: Address,
    worth: int,
) -> bool {
    if invoice.status is FullySettled {
        amount <= invoice.balance(holder)
    } else {
        &&& amount <= match invoice.dust {
            Some(dust) => dust as int,
            None => 0,
        }
        &&& match invoice.entitlement(holder) {
            Some(left) => amount <= left && amount <= invoice.balance(holder),
            None => amount <= if worth <= i128::MAX {
                worth
            } else {
                0
            },
        }
    }
}

/// A redemption goes through exactly when the holder authorizes it, the lifecycle is not
/// paused, the invoice is settled in part or in full, the compliance engine allows it, the
/// holder has the amount, and it is not negative and no more than the holder may redeem, as
/// long as the supply stays within 128 bits. Each refusal comes exactly where the condition
/// that it names is the first that fails. The compliance engine is asked about a transfer of
/// the amount from the holder to the holder.
pub proof fn law_redemption_goes_through_exactly_when_due(
    invoice: InvoiceView,
    s: Setting,
    from: Address,
    amount: i128,
    worth: int,
)
    requires
        is_share(worth, invoice, from),
    ensures
        ({
            let verdict = invoice_verdict(invoice, s, InvoiceCall::Redeem { from, amount });
            let deny = |kyc: bool|
                s.replies.transfer == Some(TransferDecision::Deny { for_kyc: kyc });
            let authorized = s.replies.authorized == Some(true);
            let active = authorized && !s.paused;
            let settled = active && (invoice.status is PartiallySettled || invoice.status
                is FullySettled);
            let allowed = settled && s.replies.transfer == Some(TransferDecision::Allow);
            let held = allowed && amount <= invoice.balance(from);
            let within = is_within_cap(amount, invoice, from, worth);
            let fits = in_range(invoice.supply - amount);
            &&& verdict is Ok <==> held && within && amount >= 0 && fits
            &&& verdict == Err::<(), Stop<Seq<u8>>>(Stop::Overflow) <==> held && within && amount
                >= 0 && !fits
            &&& verdict == question(Query::Transfer { from, to: from, amount }) <==> settled
                && s.replies.transfer is None
            &&& verdict == refusal(InvoiceError::LifecyclePaused) <==> authorized && s.paused
            &&& verdict == refusal(InvoiceError::NotSettled) <==> active && !(invoice.status
                is PartiallySettled || invoice.status is FullySettled)
            &&& verdict == refusal(InvoiceError::KycNotApproved) <==> settled && deny(true)
            &&& verdict == refusal(InvoiceError::TransferBlocked) <==> settled && deny(false)
            &&& verdict == refusal(InvoiceError::InsufficientBalance) <==> allowed && amount
                > invoice.balance(from)
            &&& verdict == refusal(InvoiceError::OverSettlement) <==> held && !within
            &&& verdict == refusal(InvoiceError::NegativeAmount) <==> held && within && amount < 0
        }),
{
    lemma_share(worth, invoice, from);
    if invoice.status is PartiallySettled || invoice.status is FullySettled {
        assert(amount <= redemption_cap(invoice, from) <==> is_within_cap(
            amount,
            invoice,
            from,
            worth,
        ));
    }
}

/// A burn goes through exactly when the holder authorizes it, the compliance engine allows
/// it, and the amount is not negative and no more than the holder has, in whatever state the
/// invoice is, as long as the supply stays within 128 bits. The compliance engine is asked
/// about a transfer of the amount from the holder to the holder.
pub proof fn law_burn_goes_through_exactly_when_held(
    invoice: InvoiceView,
    s: Setting,
    from: Address,
    amount: i128,
)
    ensures
        ({
            let verdict = invoice_verdict(invoice, s, InvoiceCall::Burn { from, amount });
            let authorized = s.replies.authorized == Some(true);
            let allowed = authorized && s.replies.transfer == Some(TransferDecision::Allow);
            let held = allowed && amount <= invoice.balance(from);
            &&& verdict is Ok <==> held && in_range(invoice.supply - amount) && amount >= 0
            &&& verdict == Err::<(), Stop<Seq<u8>>>(Stop::Overflow) <==> held && !in_range(
                invoice.supply - amount,
            )
            &&& verdict == question(Query::Transfer { from, to: from, amount }) <==> authorized
                && s.replies.transfer is None
            &&& verdict == refusal(InvoiceError::KycNotApproved) <==> authorized
                && s.replies.transfer == Some(TransferDecision::Deny { for_kyc: true })
            &&& verdict == refusal(InvoiceError::TransferBlocked) <==> authorized
                && s.replies.transfer == Some(TransferDecision::Deny { for_kyc: false })
            &&& verdict == refusal(InvoiceError::InsufficientBalance) <==> allowed && amount
                > invoice.balance(from)
            &&& verdict == refusal(InvoiceError::NegativeAmount) <==> held && in_range(
                invoice.supply - amount,
            ) && amount < 0
        }),
{
}

/// A delegated burn is refused for its allowance exactly where the allowance is less than
/// the amount, or has expired, and nothing before it refuses the burn. What comes before it
/// stops the delegated burn as it stops the direct one.
pub proof fn law_delegated_burn_needs_an_allowance(
    invoice: InvoiceView,
    s: Setting,
    spender: Address,
    from: Address,
    amount: i128,
)
    ensures
        ({
            let verdict = invoice_verdict(
                invoice,
                s,
                InvoiceCall::BurnFrom { spender, from, amount },
            );
            let allowance = invoice.allowance(from, spender);
            let allowed = s.replies.authorized == Some(true) && s.replies.transfer == Some(
                TransferDecision::Allow,
            );
            &&& verdict == refusal(InvoiceError::InsufficientAllowance) <==> allowed
                && allowance.amount < amount
            &&& verdict == refusal(InvoiceError::AllowanceExpired) <==> allowed && amount
                <= allowance.amount && s.ledger.sequence > allowance.expiration_ledger
            &&& verdict is Ok ==> amount <= allowance.amount && s.ledger.sequence
                <= allowance.expiration_ledger
            &&& s.replies.authorized is Some && !allowed ==> verdict == invoice_verdict(
                invoice,
                s,
                InvoiceCall::Burn { from, amount },
            )
        }),
{
}

/// What is redeemed or burned is gone: the holder and the supply have less by the amount, and
/// nobody else has more or less. The metadata and the settlement stay. When the last token
/// of a settled invoice is gone, and only then, the invoice is redeemed, and its journal
/// says so.
pub proof fn law_redeemed_and_burned_tokens_are_gone(
    invoice: InvoiceView,
    s: Setting,
    spender: Address,
    from: Address,
    amount: i128,
    call: InvoiceCall,
    holder: Address,
)
    requires
        call == (InvoiceCall::Redeem { from, amount }) || call == (InvoiceCall::Burn {
            from,
            amount,
        }) || call == (InvoiceCall::BurnFrom { spender, from, amount }),
        invoice_verdict(invoice, s, call) is Ok,
    ensures
        ({
            let after = invoice_step(invoice, s, call);
            &&& 0 <= amount <= invoice.balance(from)
            &&& after.balance(holder) == invoice.balance(holder) - (if holder == from {
                amount as int
            } else {
                0
            })
            &&& after.supply == invoice.supply - amount
            &&& after.meta == invoice.meta
            &&& after.settlement == invoice.settlement
            &&& if after.supply == 0 && (invoice.status is PartiallySettled || invoice.status
                is FullySettled) {
                &&& after.status is Redeemed
                &&& after.journal == invoice.journal.push(
                    JournalEntry {
                        from_status: invoice.status,
                        to_status: InvoiceStatus::Redeemed,
                        ledger: s.ledger.sequence,
                        timestamp: s.ledger.timestamp,
                    },
                )
            } else {
                &&& after.status == invoice.status
                &&& after.journal == invoice.journal
            }
            &&& !(call is BurnFrom) ==> after.allowances == invoice.allowances
            &&& !(call is Redeem) ==> after.entitlements == invoice.entitlements && after.dust
                == invoice.dust
        }),
{
}

/// A redemption takes its amount off what is left of the settlement, and off what is left of
/// the holder's entitlement, which ends at nothing. Every other entitlement stays. (What is
/// left of the settlement ends at the least 128-bit integer, which it never comes near.)
pub proof fn law_redemption_is_taken_off(
    invoice: InvoiceView,
    s: Setting,
    from: Address,
    amount: i128,
    holder: Address,
)
    requires
        invoice_verdict(invoice, s, InvoiceCall::Redeem { from, amount }) is Ok,
    ensures
        ({
            let after = invoice_step(invoice, s, InvoiceCall::Redeem { from, amount });
            &&& after.dust is Some <==> invoice.dust is Some
            &&& invoice.dust matches Some(dust) ==> after.dust->0 == if in_range(dust - amount) {
                dust - amount
            } else {
                i128::MIN as int
            }
            &&& after.entitlement(holder) is Some <==> invoice.entitlement(holder) is Some
            &&& invoice.entitlement(holder) matches Some(left) ==> after.entitlement(holder)->0
                == if holder != from {
                left as int
            } else if left > amount {
                left - amount
            } else {
                0
            }
        }),
{
}

} // verus!
