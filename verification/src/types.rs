//! The values that calls take and the ledger keeps.

use crate::table::Key;
use crate::text::ByteString;
use vstd::prelude::*;

verus! {

/// Why the token refuses a call.
#[derive(Copy, Clone, Debug, Eq, PartialEq, PartialOrd, Ord, Structural)]
pub enum InvoiceError {
    AlreadyInitialized,
    AlreadySettled,
    NotSettled,
    InsufficientBalance,
    NegativeAmount,
    InsufficientAllowance,
    AllowanceExpired,
    KycNotApproved,
    CompliancePaused,
    Blocklisted,
    TransferBlocked,
    PastDueDate,
    InvoiceNotFound,
    InvoiceAlreadyExists,
    InvalidWebhook,
    /// A lifecycle transition that the current state does not permit.
    InvalidLifecycleTransition,
    /// A settlement or redemption amount above its ceiling.
    OverSettlement,
    /// A settlement amount below the minimum, such as zero.
    UnderSettlement,
    /// Settlement and redemption are blocked while the lifecycle is paused.
    LifecyclePaused,
    /// A metadata field with an invalid value, such as a malformed currency code.
    InvalidMetadata,
}

impl InvoiceError {
    /// The number under which the error is reported.
    pub open spec fn spec_code(self) -> u32 {
        match self {
            InvoiceError::AlreadyInitialized => 1,
            InvoiceError::AlreadySettled => 2,
            InvoiceError::NotSettled => 3,
            InvoiceError::InsufficientBalance => 4,
            InvoiceError::NegativeAmount => 5,
            InvoiceError::InsufficientAllowance => 6,
            InvoiceError::AllowanceExpired => 7,
            InvoiceError::KycNotApproved => 8,
            InvoiceError::CompliancePaused => 9,
            InvoiceError::Blocklisted => 10,
            InvoiceError::TransferBlocked => 11,
            InvoiceError::PastDueDate => 12,
            InvoiceError::InvoiceNotFound => 13,
            InvoiceError::InvoiceAlreadyExists => 14,
            InvoiceError::InvalidWebhook => 15,
            InvoiceError::InvalidLifecycleTransition => 16,
            InvoiceError::OverSettlement => 17,
            InvoiceError::UnderSettlement => 18,
            InvoiceError::LifecyclePaused => 19,
            InvoiceError::InvalidMetadata => 20,
        }
    }

    /// The number under which the error is reported.
    pub fn code(self) -> (code: u32)
        ensures
            code == self.spec_code(),
    {
        match self {
            InvoiceError::AlreadyInitialized => 1,
            InvoiceError::AlreadySettled => 2,
            InvoiceError::NotSettled => 3,
            InvoiceError::InsufficientBalance => 4,
            InvoiceError::NegativeAmount => 5,
            InvoiceError::InsufficientAllowance => 6,
            InvoiceError::AllowanceExpired => 7,
            InvoiceError::KycNotApproved => 8,
            InvoiceError::CompliancePaused => 9,
            InvoiceError::Blocklisted => 10,
            InvoiceError::TransferBlocked => 11,
            InvoiceError::PastDueDate => 12,
            InvoiceError::InvoiceNotFound => 13,
            InvoiceError::InvoiceAlreadyExists => 14,
            InvoiceError::InvalidWebhook => 15,
            InvoiceError::InvalidLifecycleTransition => 16,
            InvoiceError::OverSettlement => 17,
            InvoiceError::UnderSettlement => 18,
            InvoiceError::LifecyclePaused => 19,
            InvoiceError::InvalidMetadata => 20,
        }
    }
}

/// The lifecycle state of one invoice.
#[derive(Clone, Copy, Debug, Eq, PartialEq, Structural)]
pub enum InvoiceStatus {
    /// Registered; no tokens minted yet.
    Created,
    /// At least one token minted; settlement not yet initiated.
    Issued,
    /// A partial payment is recorded; redemption is proportional to the settlement.
    /// Transfers between holders are still permitted.
    PartiallySettled,
    /// The full face value is recorded as paid; holders may redeem their entire balance.
    FullySettled,
    /// Every token has been redeemed or burned after settlement; the supply is zero.
    Redeemed,
}

/// One recorded transition of one invoice.
#[derive(Clone, Copy, Debug, Eq, PartialEq, Structural)]
pub struct JournalEntry {
    pub from_status: InvoiceStatus,
    pub to_status: InvoiceStatus,
    pub ledger: u32,
    pub timestamp: u64,
}

/// An account or contract address: which of the two it is, and its 256-bit payload.
#[derive(Clone, Copy, Debug, Eq, PartialEq, Structural)]
pub struct Address {
    pub is_contract: bool,
    pub high: u128,
    pub low: u128,
}

impl View for Address {
    type V = Address;

    open spec fn view(&self) -> Address {
        *self
    }
}

impl Key for Address {
    fn same_key(&self, other: &Self) -> (same: bool) {
        *self == *other
    }
}

impl Key for (Address, Address) {
    fn same_key(&self, other: &Self) -> (same: bool) {
        self.0 == other.0 && self.1 == other.1
    }
}

/// How much a spender may move, and the last ledger in which it may do so.
#[derive(Clone, Copy, Debug, Eq, PartialEq, Structural)]
pub struct AllowanceValue {
    pub amount: i128,
    pub expiration_ledger: u32,
}

/// What is known of an invoice. Strings are of type `S`.
#[derive(Clone, Debug, Eq, PartialEq)]
pub struct InvoiceMeta<S = ByteString> {
    pub invoice_id: S,
    pub issuer: S,
    pub debtor: S,
    /// In stroops (7 decimals).
    pub face_value_usd: i128,
    /// In basis points.
    pub discount_rate_bps: u32,
    /// A Unix timestamp.
    pub due_date: u64,
    pub currency: S,
    pub ipfs_doc_hash: S,
    /// In basis points.
    pub transfer_fee_bps: u32,
    pub fee_recipient: Option<Address>,
    /// Empty, or a URL that starts with "https://".
    pub notification_webhook: S,
}

impl View for InvoiceMeta {
    type V = InvoiceMeta<Seq<u8>>;

    open spec fn view(&self) -> InvoiceMeta<Seq<u8>> {
        InvoiceMeta {
            invoice_id: self.invoice_id@,
            issuer: self.issuer@,
            debtor: self.debtor@,
            face_value_usd: self.face_value_usd,
            discount_rate_bps: self.discount_rate_bps,
            due_date: self.due_date,
            currency: self.currency@,
            ipfs_doc_hash: self.ipfs_doc_hash@,
            transfer_fee_bps: self.transfer_fee_bps,
            fee_recipient: self.fee_recipient,
            notification_webhook: self.notification_webhook@,
        }
    }
}

impl InvoiceMeta {
    /// A second record with the same fields.
    pub fn copy(&self) -> (meta: Self)
        ensures
            meta@ == self@,
    {
        InvoiceMeta {
            invoice_id: self.invoice_id.copy(),
            issuer: self.issuer.copy(),
            debtor: self.debtor.copy(),
            face_value_usd: self.face_value_usd,
            discount_rate_bps: self.discount_rate_bps,
            due_date: self.due_date,
            currency: self.currency.copy(),
            ipfs_doc_hash: self.ipfs_doc_hash.copy(),
            transfer_fee_bps: self.transfer_fee_bps,
            fee_recipient: self.fee_recipient,
            notification_webhook: self.notification_webhook.copy(),
        }
    }
}

/// The result of one settlement of a batch. Strings are of type `S`.
#[derive(Clone, Debug, Eq, PartialEq)]
pub struct BatchSettleResult<S = ByteString> {
    pub invoice_id: S,
    /// `None` on success, the code of the error on failure.
    pub error: Option<u32>,
}

impl View for BatchSettleResult {
    type V = BatchSettleResult<Seq<u8>>;

    open spec fn view(&self) -> BatchSettleResult<Seq<u8>> {
        BatchSettleResult { invoice_id: self.invoice_id@, error: self.error }
    }
}

/// The key of a ledger entry. Strings are of type `S`.
#[derive(Clone, Debug, Eq, PartialEq)]
pub enum DataKey<S = ByteString> {
    InvoiceMeta(S),
    Balance(Address, S),
    Allowance(Address, Address, S),
    TotalSupply(S),
    InvoiceStatus(S),
    SettlementAmount(S),
    /// The append-only transition journal of one invoice.
    Journal(S),
    InvoicesList,
    HolderList,
    /// While true, settlement and redemption are blocked for all invoices.
    LifecyclePaused,
    /// The fee recipient role of the contract.
    FeeRecipientRole,
    /// While true, a transfer does not check the fee recipient.
    FeeRecipientExempt,
    /// What a holder who transferred during partial settlement may still redeem.
    SettledEntitlement(S, Address),
    /// The part of the settlement that has not been redeemed.
    RedemptionDust(S),
}

impl View for DataKey {
    type V = DataKey<Seq<u8>>;

    open spec fn view(&self) -> DataKey<Seq<u8>> {
        match self {
            DataKey::InvoiceMeta(id) => DataKey::InvoiceMeta(id@),
            DataKey::Balance(holder, id) => DataKey::Balance(*holder, id@),
            DataKey::Allowance(from, spender, id) => DataKey::Allowance(*from, *spender, id@),
            DataKey::TotalSupply(id) => DataKey::TotalSupply(id@),
            DataKey::InvoiceStatus(id) => DataKey::InvoiceStatus(id@),
            DataKey::SettlementAmount(id) => DataKey::SettlementAmount(id@),
            DataKey::Journal(id) => DataKey::Journal(id@),
            DataKey::InvoicesList => DataKey::InvoicesList,
            DataKey::HolderList => DataKey::HolderList,
            DataKey::LifecyclePaused => DataKey::LifecyclePaused,
            DataKey::FeeRecipientRole => DataKey::FeeRecipientRole,
            DataKey::FeeRecipientExempt => DataKey::FeeRecipientExempt,
            DataKey::SettledEntitlement(id, holder) => DataKey::SettledEntitlement(id@, *holder),
            DataKey::RedemptionDust(id) => DataKey::RedemptionDust(id@),
        }
    }
}

/// The ledger in which a call runs.
#[derive(Clone, Copy, Debug, Eq, PartialEq, Structural)]
pub struct Ledger {
    pub sequence: u32,
    pub timestamp: u64,
}

/// What the KYC registry says of an address.
#[derive(Clone, Copy, Debug, Eq, PartialEq, Structural)]
pub enum KycState {
    Approved,
    NotApproved,
}

/// What the compliance engine says of a transfer.
#[derive(Clone, Copy, Debug, Eq, PartialEq, Structural)]
pub enum TransferDecision {
    Allow,
    /// Denied; `for_kyc` when the reason given is a missing KYC approval.
    Deny { for_kyc: bool },
}

} // verus!
