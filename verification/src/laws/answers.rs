//! Questions and answers.

use crate::amount::fee_fits;
use crate::history::{
    invoice_verdict, setting, token_verdict, InvoiceCall, Occasion, Setting, TokenCall,
};
use crate::invoice::InvoiceView;
use crate::step::{
    admin_authorizes, authorizes, compliance_allows, ensure, fee_compliance_allows, fits,
    kyc_approves, verdict_of, InTurn, Query, Replies, Stop, Verdict,
};
use crate::token::TokenView;
use crate::transfer::{
    allowance_covers_transfer, fee_on, fee_recipient, movable, open_for_transfer,
};
use crate::types::{Address, InvoiceError, KycState, TransferDecision};
use vstd::prelude::*;

verus! {

/// The answers hold one to the question.
pub open spec fn answered(replies: Replies, query: Query<Seq<u8>>) -> bool {
    match query {
        Query::AdminAuth => replies.authorized is Some,
        Query::Auth(_) => replies.authorized is Some,
        Query::Kyc(_) => replies.kyc is Some,
        Query::Transfer { .. } => replies.transfer is Some,
        Query::FeeTransfer { .. } => replies.fee_transfer is Some,
        Query::Currency(_) => replies.currency is Some,
        Query::IpfsHash(_) => replies.ipfs_hash is Some,
    }
}

/// The verdict asks for nothing that the answers hold.
pub open spec fn asks_what_is_lacking(replies: Replies, verdict: Verdict) -> bool {
    verdict matches Err(Stop::Ask(query)) ==> !answered(replies, query)
}

proof fn lemma_movable_asks_what_is_lacking(
    invoice: InvoiceView,
    s: Setting,
    from: Address,
    to: Address,
    amount: i128,
)
    ensures
        asks_what_is_lacking(
            s.replies,
            fee_fits(invoice.meta->0, amount).and_next(
                movable(invoice, s.exempt, s.replies, from, to, amount),
            ),
        ),
{
    let fee = fee_on(invoice, amount);
    let recipient = fee_recipient(invoice);
    let check = fee_compliance_allows(s.replies, from, recipient, fee as i128);
    assert(asks_what_is_lacking(s.replies, check));
}

proof fn lemma_transfer_asks_what_is_lacking(
    invoice: InvoiceView,
    s: Setting,
    who: Address,
    from: Address,
    to: Address,
    amount: i128,
    allowance: Verdict,
)
    requires
        !(allowance matches Err(Stop::Ask(_))),
    ensures
        asks_what_is_lacking(
            s.replies,
            authorizes(s.replies, who).and_next(
                open_for_transfer(invoice, s.ledger, amount),
            ).and_next(compliance_allows(s.replies, from, to, amount)).and_next(
                allowance,
            ).and_next(fee_fits(invoice.meta->0, amount)).and_next(
                movable(invoice, s.exempt, s.replies, from, to, amount),
            ),
        ),
{
    lemma_movable_asks_what_is_lacking(invoice, s, from, to, amount);
    let moving = movable(invoice, s.exempt, s.replies, from, to, amount);
    let fee = fee_fits(invoice.meta->0, amount);
    let opening = open_for_transfer(invoice, s.ledger, amount);
    assert(!(opening matches Err(Stop::Ask(_))));
    assert(!(fee matches Err(Stop::Ask(_))));
    assert(asks_what_is_lacking(s.replies, compliance_allows(s.replies, from, to, amount)));
    assert(asks_what_is_lacking(s.replies, authorizes(s.replies, who)));
}

proof fn lemma_call_on_invoice_asks_what_is_lacking(
    invoice: InvoiceView,
    s: Setting,
    call: InvoiceCall,
)
    ensures
        asks_what_is_lacking(s.replies, invoice_verdict(invoice, s, call)),
{
    match call {
        InvoiceCall::Transfer { from, to, amount } => {
            lemma_transfer_asks_what_is_lacking(invoice, s, from, from, to, amount, Ok(()));
        },
        InvoiceCall::TransferFrom { spender, from, to, amount } => {
            let allowance = allowance_covers_transfer(
                invoice.allowance(from, spender),
                s.ledger,
                amount,
            );
            lemma_transfer_asks_what_is_lacking(
                invoice,
                s,
                spender,
                from,
                to,
                amount,
                allowance,
            );
        },
        _ => {},
    }
}

/// A call never asks what it has the answer to, so that with each answer it gets further.
pub proof fn law_call_asks_only_what_it_lacks(
    token: TokenView,
    o: Occasion,
    query: Query<Seq<u8>>,
)
    requires
        token_verdict(token, o) == Err::<(), Stop<Seq<u8>>>(Stop::Ask(query)),
    ensures
        !answered(o.replies, query),
{
    match o.call {
        TokenCall::OnInvoice { id, call } => {
            lemma_call_on_invoice_asks_what_is_lacking(
                token.invoices[id],
                setting(token, o.ledger, o.replies),
                call,
            );
        },
        _ => {},
    }
}

/// Who has to authorize a call. The constructor needs no authorization, and the payments
/// of a batch have that of the batch.
pub open spec fn authority(call: TokenCall) -> Option<Query<Seq<u8>>> {
    match call {
        TokenCall::Constructor { .. } => None,
        TokenCall::OnInvoice { call: on_invoice, .. } => match on_invoice {
            InvoiceCall::UpdateMeta { .. } => Some(Query::AdminAuth),
            InvoiceCall::Issue { .. } => Some(Query::AdminAuth),
            InvoiceCall::Settle => Some(Query::AdminAuth),
            InvoiceCall::PartialSettle { .. } => Some(Query::AdminAuth),
            InvoiceCall::BatchPayment { .. } => None,
            InvoiceCall::Redeem { from, .. } => Some(Query::Auth(from)),
            InvoiceCall::Burn { from, .. } => Some(Query::Auth(from)),
            InvoiceCall::BurnFrom { spender, .. } => Some(Query::Auth(spender)),
            InvoiceCall::Transfer { from, .. } => Some(Query::Auth(from)),
            InvoiceCall::TransferFrom { spender, .. } => Some(Query::Auth(spender)),
            InvoiceCall::Approve { from, .. } => Some(Query::Auth(from)),
        },
        _ => Some(Query::AdminAuth),
    }
}

/// A call asks for authorization before anything else, of the party that has to give it,
/// and without it goes no further.
pub proof fn law_call_needs_authorization(token: TokenView, o: Occasion)
    requires
        authority(o.call) is Some,
    ensures
        o.replies.authorized is None ==> token_verdict(token, o) == Err::<(), Stop<Seq<u8>>>(
            Stop::Ask(authority(o.call)->0),
        ),
        o.replies.authorized == Some(false) ==> token_verdict(token, o) == Err::<
            (),
            Stop<Seq<u8>>,
        >(Stop::Unauthorized),
{
}

/// What an answer means: an authorization, an approval or a permission passes only where it
/// is given; without an answer it is asked for, of the party and for the transfer in
/// question; and a denial is told by its reason.
pub proof fn law_only_a_yes_passes(replies: Replies, from: Address, to: Address, amount: i128)
    ensures
        match replies.authorized {
            Some(true) => admin_authorizes(replies) is Ok && authorizes(replies, from) is Ok,
            Some(false) => admin_authorizes(replies) == Err::<(), Stop<Seq<u8>>>(Stop::Unauthorized)
                && authorizes(replies, from) == Err::<(), Stop<Seq<u8>>>(Stop::Unauthorized),
            None => admin_authorizes(replies) == Err::<(), Stop<Seq<u8>>>(
                Stop::Ask(Query::AdminAuth),
            ) && authorizes(replies, from) == Err::<(), Stop<Seq<u8>>>(
                Stop::Ask(Query::Auth(from)),
            ),
        },
        kyc_approves(replies, to) == match replies.kyc {
            Some(KycState::Approved) => Ok::<(), Stop<Seq<u8>>>(()),
            Some(KycState::NotApproved) => Err(Stop::Error(InvoiceError::KycNotApproved)),
            None => Err(Stop::Ask(Query::Kyc(to))),
        },
        compliance_allows(replies, from, to, amount) == match replies.transfer {
            Some(TransferDecision::Allow) => Ok::<(), Stop<Seq<u8>>>(()),
            Some(TransferDecision::Deny { for_kyc: true }) => Err(
                Stop::Error(InvoiceError::KycNotApproved),
            ),
            Some(TransferDecision::Deny { for_kyc: false }) => Err(
                Stop::Error(InvoiceError::TransferBlocked),
            ),
            None => Err(Stop::Ask(Query::Transfer { from, to, amount })),
        },
        fee_compliance_allows(replies, from, to, amount) == match replies.fee_transfer {
            Some(TransferDecision::Allow) => Ok::<(), Stop<Seq<u8>>>(()),
            Some(TransferDecision::Deny { for_kyc: true }) => Err(
                Stop::Error(InvoiceError::KycNotApproved),
            ),
            Some(TransferDecision::Deny { for_kyc: false }) => Err(
                Stop::Error(InvoiceError::TransferBlocked),
            ),
            None => Err(Stop::Ask(Query::FeeTransfer { from, to, amount })),
        },
{
}

/// Of checks made in turn, the first that stops decides; a condition or a range stops
/// exactly where it does not hold.
pub proof fn law_first_stop_decides(
    one: Verdict,
    next: Verdict,
    condition: bool,
    error: InvoiceError,
    number: int,
)
    ensures
        one is Ok ==> one.and_next(next) == next,
        one is Err ==> one.and_next(next) == one,
        condition ==> ensure(condition, error) is Ok,
        !condition ==> ensure(condition, error) == Err::<(), Stop<Seq<u8>>>(Stop::Error(error)),
        fits(number) is Ok <==> i128::MIN <= number <= i128::MAX,
        fits(number) is Err ==> fits(number) == Err::<(), Stop<Seq<u8>>>(Stop::Overflow),
{
}

/// What a call shows of its result: success as success, and a stop as what it is.
pub proof fn law_verdict_shows_the_result<T>(result: Result<T, Stop>)
    ensures
        result is Ok <==> verdict_of(result) is Ok,
        result matches Err(stop) ==> verdict_of(result) == Err::<(), Stop<Seq<u8>>>(stop@),
{
}

} // verus!
