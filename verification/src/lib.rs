//! Accounting core of a token-swap exchange: an operational-state gate, a
//! table of fixed-point exchange rates, and a ledger of per-provider
//! liquidity shares, together with the settlement arithmetic for swaps,
//! deposits and withdrawals. Value movement, caller identity and event
//! emission belong to the surrounding host; this crate makes the decisions
//! and keeps the books.

pub mod asset;
pub mod laws;
pub mod ledger;
pub(crate) mod table;
