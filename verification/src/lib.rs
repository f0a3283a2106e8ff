//! Dispute-resolution and consensus engine for a time-locked escrow.
//!
//! A payment between a requesting agent and a service provider is held in
//! escrow, released automatically after a time lock, and, if the agent
//! disputes quality, split between refund and payment according to a
//! deterministic policy backed by cryptographically attested quality
//! assessments.
//!
//! The crate contains the verified core: the escrow state machine, the
//! signature-record verification protocol, the multi-oracle consensus
//! algorithm, the refund policy, and the reputation and rate-limit scoring
//! functions. Value transfer, account provisioning and clock access are the
//! surrounding environment's concern; operations take the current time,
//! balances and externally supplied records as plain values and report the
//! fund movements they require.

pub mod consensus;
pub mod errors;
pub mod escrow;
pub mod keys;
pub mod rate_limit;
pub mod records;
pub mod refund;
pub mod registry;
pub mod reputation;
pub mod sigverify;
pub mod token_mints;
