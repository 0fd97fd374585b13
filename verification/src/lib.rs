//! A deterministic state-transition engine for a donation-based crowdfunding
//! ledger: campaigns, fee-splitting donations, trust scores, a disbursement
//! approval workflow and tier-based reward badges.
//!
//! Every operation is a method of [`SaviaContract`], which owns the whole
//! ledger state. The caller supplies the authorizing principal and the
//! current time; identifiers are derived by hashing the call's inputs
//! together with a per-kind counter.
//!
//! - [`encoding`], [`ident`]: the bytes that are hashed, and the identifiers.
//! - [`errors`], [`records`]: the error taxonomy and the ledger's records.
//! - [`fees`], [`badge`], [`trust`], [`campaign`]: the rules on single values.
//! - [`table`], [`state`]: the ledger as a mathematical value, and what each
//!   operation does to it.
//! - [`store`], [`contract`]: the executable ledger.
//! - [`history`], [`funding`], [`lifecycle`]: what holds of every sequence of
//!   operations.

pub mod encoding;
pub mod ident;
pub mod errors;
pub mod records;
pub mod fees;
pub mod badge;
pub mod trust;
pub mod campaign;
pub mod table;
pub mod state;
pub mod store;
pub mod contract;
pub mod history;
pub mod funding;
pub mod lifecycle;

pub use contract::{LedgerSnapshot, SaviaContract};
pub use errors::SaviaError;
pub use ident::Id;
pub use records::{
    Address, Campaign, DataKey, Disbursement, DisbursementStatus, Donation, NFTBadge,
    PlatformStats, TrustScore,
};
pub use state::StatsChange;
