//! Tokenized accounts-receivable invoices.
//!
//! One unit of the token stands for one US dollar of the face value of an invoice, in
//! seven decimals. A contract holds any number of invoices, each under its id. An invoice
//! goes through these states, and every transition is recorded in its journal:
//!
//! ```text
//! Created -- issue --> Issued -- partial_settle --> PartiallySettled -- settle --> FullySettled
//! ```
//!
//! Settlement may come at once, in part or in full, from `Created` or `Issued`. Once the
//! supply of a settled invoice is redeemed or burned, it is `Redeemed`.
//!
//! The calls on the token are methods of [`token::InvoiceToken`]. They work on the state
//! of the token alone: what they ask of their surroundings is described in [`step`], what
//! they do to the ledger in [`effect`]. What holds of the token as a whole is stated and
//! proved in [`laws`].

pub mod admin;
pub mod amount;
pub mod effect;
pub mod history;
pub mod ids;
pub mod invoice;
pub mod laws;
pub mod query;
pub mod redeem;
pub mod settle;
pub mod step;
pub mod supply;
pub mod table;
pub mod text;
pub mod token;
pub mod transfer;
pub mod types;
