//! Settlement core of a bug-bounty escrow: deposits tied to a vulnerability
//! report, released or refunded under registry authority, multi-party
//! approval, dispute override and a timeout refund.
pub mod identity;
pub mod accounts;
pub mod ledger;
pub mod engine;
pub mod governance;
pub mod laws;
