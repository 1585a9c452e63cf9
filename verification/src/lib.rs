//! Governance core of a DAO: a proposal lifecycle state machine driven by
//! stake-weighted vote events.
//!
//! The library has three pieces:
//! - [`config::DaoConfig`]: organization-wide floors and ceilings for
//!   per-proposal parameters, plus the monotonic counter that assigns
//!   proposal identifiers.
//! - [`proposal::Proposal`]: the state machine itself, with its quorum,
//!   threshold and expiry arithmetic and its vote tallies.
//! - [`vote::VoteState`]: the per-voter record that makes vote retraction
//!   and revoting exact.
//!
//! The core is pure: the hosting platform supplies the current time (`now`)
//! on every call that compares against `created_time`, `prevoting_period`
//! or `expiry`, serializes mutations of a single proposal, and persists the
//! values. Token issuance, payments and account plumbing are the platform's
//! business and never enter the core.

pub mod account;
pub mod config;
pub mod errors;
pub mod laws;
pub mod proposal;
pub mod vote;
