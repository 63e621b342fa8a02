//! The sum of all balances.

use crate::invoice::held;
use crate::types::Address;
use vstd::prelude::*;

verus! {

/// The sum of the amounts in a finite map.
pub open spec fn total(amounts: Map<Address, i128>) -> int
    decreases amounts.dom().len(),
{
    if amounts.dom().finite() && amounts.dom().len() > 0 {
        let holder = amounts.dom().choose();
        amounts[holder] + total(amounts.remove(holder))
    } else {
        0
    }
}

/// The sum is that of any one holder's amount and all others.
pub proof fn lemma_total_remove(amounts: Map<Address, i128>, holder: Address)
    requires
        amounts.dom().finite(),
        amounts.contains_key(holder),
    ensures
        total(amounts) == amounts[holder] + total(amounts.remove(holder)),
    decreases amounts.dom().len(),
{
    let first = amounts.dom().choose();
    assert(amounts.dom().contains(first));
    if first != holder {
        let without_first = amounts.remove(first);
        let without_holder = amounts.remove(holder);
        lemma_total_remove(without_first, holder);
        lemma_total_remove(without_holder, first);
        assert(without_first.remove(holder) =~= without_holder.remove(first));
    }
}

/// Changing what one holder has changes the sum by the same amount.
pub proof fn lemma_total_insert(amounts: Map<Address, i128>, holder: Address, amount: i128)
    requires
        amounts.dom().finite(),
    ensures
        amounts.insert(holder, amount).dom().finite(),
        total(amounts.insert(holder, amount)) == total(amounts) - held(amounts, holder) + amount,
{
    let after = amounts.insert(holder, amount);
    lemma_total_remove(after, holder);
    if amounts.contains_key(holder) {
        lemma_total_remove(amounts, holder);
        assert(after.remove(holder) =~= amounts.remove(holder));
    } else {
        assert(after.remove(holder) =~= amounts);
    }
}

/// Where all amounts are zero, so is the sum.
pub proof fn lemma_total_of_nothing(amounts: Map<Address, i128>)
    requires
        amounts.dom().finite(),
        forall|holder: Address| #[trigger] held(amounts, holder) == 0,
    ensures
        total(amounts) == 0,
    decreases amounts.dom().len(),
{
    if amounts.dom().len() > 0 {
        let first = amounts.dom().choose();
        let rest = amounts.remove(first);
        assert forall|holder: Address| #[trigger] held(rest, holder) == 0 by {
            assert(held(amounts, holder) == 0);
        }
        assert(held(amounts, first) == 0);
        lemma_total_of_nothing(rest);
    }
}

/// Where no amount is negative, none exceeds the sum.
pub proof fn lemma_part_of_total(amounts: Map<Address, i128>, holder: Address)
    requires
        amounts.dom().finite(),
        forall|other: Address| #[trigger] held(amounts, other) >= 0,
    ensures
        0 <= held(amounts, holder) <= total(amounts),
    decreases amounts.dom().len(),
{
    assert(held(amounts, holder) >= 0);
    if amounts.dom().len() > 0 {
        let first = amounts.dom().choose();
        let rest = amounts.remove(first);
        assert forall|other: Address| #[trigger] held(rest, other) >= 0 by {
            assert(held(amounts, other) >= 0);
        }
        assert(held(amounts, first) >= 0);
        lemma_part_of_total(rest, holder);
    }
}

} // verus!
