//! Present values, pages of the list of invoices, and reports of a batch.

use crate::amount::{days_to_maturity, discount};
use crate::query::{page, value_at};
use crate::settle::{batch_error, batch_state};
use crate::token::TokenView;
use crate::types::{BatchSettleResult, InvoiceMeta, Ledger};
use vstd::prelude::*;

verus! {

// ---- Present value ----

/// The present value is between nothing and the face value.
pub proof fn law_present_value_is_part_of_face_value(meta: InvoiceMeta<Seq<u8>>, timestamp: u64)
    requires
        meta.face_value_usd > 0,
    ensures
        0 <= value_at(meta, timestamp) <= meta.face_value_usd,
{
    let days = days_to_maturity(meta.due_date, timestamp);
    lemma_discount_grows(meta.face_value_usd, meta.discount_rate_bps, 0, days);
}

/// From one day before the due date on, the present value is the face value.
pub proof fn law_present_value_at_maturity(meta: InvoiceMeta<Seq<u8>>, timestamp: u64)
    requires
        meta.face_value_usd > 0,
        meta.due_date < timestamp + 86400,
    ensures
        value_at(meta, timestamp) == meta.face_value_usd,
{
    assert(days_to_maturity(meta.due_date, timestamp) == 0);
}

/// As time goes by, the present value does not fall.
pub proof fn law_present_value_does_not_fall(meta: InvoiceMeta<Seq<u8>>, earlier: u64, later: u64)
    requires
        meta.face_value_usd > 0,
        earlier <= later,
    ensures
        value_at(meta, earlier) <= value_at(meta, later),
{
    lemma_discount_grows(
        meta.face_value_usd,
        meta.discount_rate_bps,
        days_to_maturity(meta.due_date, later),
        days_to_maturity(meta.due_date, earlier),
    );
}

/// The longer to maturity, the greater the discount.
proof fn lemma_discount_grows(face_value: i128, rate_bps: u32, fewer: int, more: int)
    requires
        face_value >= 0,
        0 <= fewer <= more,
    ensures
        0 <= discount(face_value, rate_bps, fewer) <= discount(face_value, rate_bps, more),
{
    assert(0 <= face_value * rate_bps * fewer <= face_value * rate_bps * more) by (nonlinear_arith)
        requires
            face_value >= 0,
            0 <= fewer <= more,
    ;
}

// ---- Pages ----

/// Turning the pages gives the whole list: a page and the one that starts where it ends
/// make up the range of both.
pub proof fn law_pages_join(list: Seq<Seq<u8>>, start: u32, first: u32, second: u32)
    requires
        first <= 50,
        second <= 50,
        start + first <= u32::MAX,
        start + first <= list.len(),
    ensures
        page(list, start, first) + page(list, (start + first) as u32, second) == list.subrange(
            start as int,
            if start + first + second < list.len() {
                start + first + second
            } else {
                list.len() as int
            },
        ),
{
    let joined = page(list, start, first) + page(list, (start + first) as u32, second);
    assert(joined =~= list.subrange(
        start as int,
        if start + first + second < list.len() {
            start + first + second
        } else {
            list.len() as int
        },
    ));
}

/// A page holds at most fifty ids, and never more than asked for.
pub proof fn law_page_is_limited(list: Seq<Seq<u8>>, start: u32, limit: u32)
    ensures
        page(list, start, limit).len() <= 50,
        page(list, start, limit).len() <= limit,
{
}

// ---- Batches ----

/// A batch reports on each settlement that it processes, in order: nothing, or the error
/// that the settlement had in the state that the ones before it led to.
pub proof fn law_batch_reports_each_settlement(
    token: TokenView,
    ledger: Ledger,
    settlements: Seq<(Seq<u8>, i128)>,
    count: nat,
    index: nat,
)
    requires
        index < count <= settlements.len(),
    ensures
        ({
            let results = batch_state(token, ledger, settlements, count).results;
            let before = batch_state(token, ledger, settlements, index).token;
            let (id, amount) = settlements[index as int];
            &&& results.len() == count
            &&& results[index as int] == BatchSettleResult {
                invoice_id: id,
                error: match batch_error(before.invoices[id], before.paused, amount) {
                    Some(error) => Some(error.spec_code()),
                    None => None,
                },
            }
        }),
    decreases count,
{
    lemma_batch_results(token, ledger, settlements, (count - 1) as nat);
    if index < count - 1 {
        law_batch_reports_each_settlement(
            token,
            ledger,
            settlements,
            (count - 1) as nat,
            index,
        );
    }
}

proof fn lemma_batch_results(
    token: TokenView,
    ledger: Ledger,
    settlements: Seq<(Seq<u8>, i128)>,
    count: nat,
)
    ensures
        batch_state(token, ledger, settlements, count).results.len() == count,
    decreases count,
{
    if count > 0 {
        lemma_batch_results(token, ledger, settlements, (count - 1) as nat);
    }
}

} // verus!
