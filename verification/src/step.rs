//! How a call proceeds: what it asks of its surroundings, why it stops, and what it
//! has done to the ledger.
//!
//! A call runs on the state of the token alone. What only its surroundings can tell
//! (an authorization, the KYC registry, the compliance engine, the format of a
//! metadata field) it asks for: it stops with a [`Query`], and is made again with the
//! answer among its [`Replies`]. A call that stops leaves the token as it was.

use crate::text::ByteString;
use crate::types::{Address, InvoiceError, KycState, TransferDecision};
use vstd::prelude::*;

verus! {

/// A question that only the surroundings can answer. Strings are of type `S`.
#[derive(Clone, Debug, Eq, PartialEq)]
pub enum Query<S = ByteString> {
    /// Does the administrator authorize the call?
    AdminAuth,
    /// Does this address authorize the call?
    Auth(Address),
    /// What does the KYC registry say of this address?
    Kyc(Address),
    /// Does the compliance engine allow this transfer?
    Transfer { from: Address, to: Address, amount: i128 },
    /// Does the compliance engine allow the fee to be paid to its recipient?
    FeeTransfer { from: Address, to: Address, amount: i128 },
    /// Is this a valid currency code?
    Currency(S),
    /// Is this a valid IPFS document hash?
    IpfsHash(S),
}

impl View for Query {
    type V = Query<Seq<u8>>;

    open spec fn view(&self) -> Query<Seq<u8>> {
        match self {
            Query::AdminAuth => Query::AdminAuth,
            Query::Auth(who) => Query::Auth(*who),
            Query::Kyc(who) => Query::Kyc(*who),
            Query::Transfer { from, to, amount } => Query::Transfer {
                from: *from,
                to: *to,
                amount: *amount,
            },
            Query::FeeTransfer { from, to, amount } => Query::FeeTransfer {
                from: *from,
                to: *to,
                amount: *amount,
            },
            Query::Currency(code) => Query::Currency(code@),
            Query::IpfsHash(hash) => Query::IpfsHash(hash@),
        }
    }
}

/// The answers that a call has so far. A call asks for one that it needs and lacks.
#[derive(Clone, Copy, Debug, Eq, PartialEq, Structural)]
pub struct Replies {
    /// To `AdminAuth` or `Auth`.
    pub authorized: Option<bool>,
    pub kyc: Option<KycState>,
    pub transfer: Option<TransferDecision>,
    pub fee_transfer: Option<TransferDecision>,
    pub currency: Option<bool>,
    pub ipfs_hash: Option<bool>,
}

/// Why a call has stopped short.
#[derive(Clone, Debug, Eq, PartialEq)]
pub enum Stop<S = ByteString> {
    /// It needs an answer.
    Ask(Query<S>),
    /// It is refused.
    Error(InvoiceError),
    /// The address that has to authorize it did not.
    Unauthorized,
    /// It needs the metadata of an invoice that has none.
    MissingInvoice,
    /// An amount leaves the range of 128-bit integers.
    Overflow,
}

impl View for Stop {
    type V = Stop<Seq<u8>>;

    open spec fn view(&self) -> Stop<Seq<u8>> {
        match self {
            Stop::Ask(query) => Stop::Ask(query@),
            Stop::Error(error) => Stop::Error(*error),
            Stop::Unauthorized => Stop::Unauthorized,
            Stop::MissingInvoice => Stop::MissingInvoice,
            Stop::Overflow => Stop::Overflow,
        }
    }
}

/// Whether a call goes through, and if not, why.
pub type Verdict = Result<(), Stop<Seq<u8>>>;

/// The verdict that the result of a call shows.
pub open spec fn verdict_of<T>(result: Result<T, Stop>) -> Verdict {
    match result {
        Ok(_) => Ok(()),
        Err(stop) => Err(stop@),
    }
}

/// Checks made in turn: the first that does not pass decides.
pub trait InTurn {
    spec fn and_next(self, next: Verdict) -> Verdict;
}

impl InTurn for Verdict {
    open spec fn and_next(self, next: Verdict) -> Verdict {
        match self {
            Ok(_) => next,
            Err(stop) => Err(stop),
        }
    }
}

/// Passes if the condition holds, and refuses with the error if not.
pub open spec fn ensure(condition: bool, error: InvoiceError) -> Verdict {
    if condition {
        Ok(())
    } else {
        Err(Stop::Error(error))
    }
}

/// The amount is not negative.
pub open spec fn not_negative(amount: i128) -> Verdict {
    ensure(amount >= 0, InvoiceError::NegativeAmount)
}

/// Passes if the number is a 128-bit integer.
pub open spec fn fits(number: int) -> Verdict {
    if i128::MIN <= number <= i128::MAX {
        Ok(())
    } else {
        Err(Stop::Overflow)
    }
}

/// The administrator authorizes the call.
pub open spec fn admin_authorizes(replies: Replies) -> Verdict {
    match replies.authorized {
        None => Err(Stop::Ask(Query::AdminAuth)),
        Some(true) => Ok(()),
        Some(false) => Err(Stop::Unauthorized),
    }
}

/// `who` authorizes the call.
pub open spec fn authorizes(replies: Replies, who: Address) -> Verdict {
    match replies.authorized {
        None => Err(Stop::Ask(Query::Auth(who))),
        Some(true) => Ok(()),
        Some(false) => Err(Stop::Unauthorized),
    }
}

/// The KYC registry approves `who`.
pub open spec fn kyc_approves(replies: Replies, who: Address) -> Verdict {
    match replies.kyc {
        None => Err(Stop::Ask(Query::Kyc(who))),
        Some(state) => ensure(state == KycState::Approved, InvoiceError::KycNotApproved),
    }
}

/// What a decision of the compliance engine means for the call.
pub open spec fn decision_allows(decision: TransferDecision) -> Verdict {
    match decision {
        TransferDecision::Allow => Ok(()),
        TransferDecision::Deny { for_kyc: true } => Err(Stop::Error(InvoiceError::KycNotApproved)),
        TransferDecision::Deny { for_kyc: false } => Err(
            Stop::Error(InvoiceError::TransferBlocked),
        ),
    }
}

/// The compliance engine allows the transfer.
pub open spec fn compliance_allows(
    replies: Replies,
    from: Address,
    to: Address,
    amount: i128,
) -> Verdict {
    match replies.transfer {
        None => Err(Stop::Ask(Query::Transfer { from, to, amount })),
        Some(decision) => decision_allows(decision),
    }
}

/// The compliance engine allows the fee to be paid to its recipient.
pub open spec fn fee_compliance_allows(
    replies: Replies,
    from: Address,
    to: Address,
    amount: i128,
) -> Verdict {
    match replies.fee_transfer {
        None => Err(Stop::Ask(Query::FeeTransfer { from, to, amount })),
        Some(decision) => decision_allows(decision),
    }
}

/// Stops unless the administrator authorizes the call.
pub fn require_admin(replies: &Replies) -> (result: Result<(), Stop>)
    ensures
        verdict_of(result) == admin_authorizes(*replies),
{
    match replies.authorized {
        None => Err(Stop::Ask(Query::AdminAuth)),
        Some(true) => Ok(()),
        Some(false) => Err(Stop::Unauthorized),
    }
}

/// Stops unless `who` authorizes the call.
pub fn require_auth(replies: &Replies, who: Address) -> (result: Result<(), Stop>)
    ensures
        verdict_of(result) == authorizes(*replies, who),
{
    match replies.authorized {
        None => Err(Stop::Ask(Query::Auth(who))),
        Some(true) => Ok(()),
        Some(false) => Err(Stop::Unauthorized),
    }
}

/// Stops if the amount is negative.
pub fn require_not_negative(amount: i128) -> (result: Result<(), Stop>)
    ensures
        verdict_of(result) == not_negative(amount),
{
    if amount < 0 {
        Err(Stop::Error(InvoiceError::NegativeAmount))
    } else {
        Ok(())
    }
}

/// Stops unless the KYC registry approves `who`.
pub fn require_kyc(replies: &Replies, who: Address) -> (result: Result<(), Stop>)
    ensures
        verdict_of(result) == kyc_approves(*replies, who),
{
    match replies.kyc {
        None => Err(Stop::Ask(Query::Kyc(who))),
        Some(KycState::Approved) => Ok(()),
        Some(KycState::NotApproved) => Err(Stop::Error(InvoiceError::KycNotApproved)),
    }
}

/// Stops unless the decision is to allow.
pub fn require_allowed(decision: TransferDecision) -> (result: Result<(), Stop>)
    ensures
        verdict_of(result) == decision_allows(decision),
{
    match decision {
        TransferDecision::Allow => Ok(()),
        TransferDecision::Deny { for_kyc } => {
            if for_kyc {
                Err(Stop::Error(InvoiceError::KycNotApproved))
            } else {
                Err(Stop::Error(InvoiceError::TransferBlocked))
            }
        },
    }
}

/// Stops unless the compliance engine allows the transfer.
pub fn require_compliance(replies: &Replies, from: Address, to: Address, amount: i128) -> (result:
    Result<(), Stop>)
    ensures
        verdict_of(result) == compliance_allows(*replies, from, to, amount),
{
    match replies.transfer {
        None => Err(Stop::Ask(Query::Transfer { from, to, amount })),
        Some(decision) => require_allowed(decision),
    }
}

/// Stops unless the compliance engine allows the fee to be paid to its recipient.
pub fn require_fee_compliance(
    replies: &Replies,
    from: Address,
    to: Address,
    amount: i128,
) -> (result: Result<(), Stop>)
    ensures
        verdict_of(result) == fee_compliance_allows(*replies, from, to, amount),
{
    match replies.fee_transfer {
        None => Err(Stop::Ask(Query::FeeTransfer { from, to, amount })),
        Some(decision) => require_allowed(decision),
    }
}

/// The sum, if it is a 128-bit integer.
pub fn sum(a: i128, b: i128) -> (result: Result<i128, Stop>)
    ensures
        verdict_of(result) == fits(a + b),
        result matches Ok(n) ==> n == a + b,
{
    match a.checked_add(b) {
        Some(n) => Ok(n),
        None => Err(Stop::Overflow),
    }
}

/// The difference, if it is a 128-bit integer.
pub fn difference(a: i128, b: i128) -> (result: Result<i128, Stop>)
    ensures
        verdict_of(result) == fits(a - b),
        result matches Ok(n) ==> n == a - b,
{
    match a.checked_sub(b) {
        Some(n) => Ok(n),
        None => Err(Stop::Overflow),
    }
}

/// The product, if it is a 128-bit integer.
pub fn product(a: i128, b: i128) -> (result: Result<i128, Stop>)
    ensures
        verdict_of(result) == fits(a * b),
        result matches Ok(n) ==> n == a * b,
{
    match a.checked_mul(b) {
        Some(n) => Ok(n),
        None => Err(Stop::Overflow),
    }
}

} // verus!
