//! Escrow and governance engine for pooled crowdfunding campaigns.
//!
//! Contributors deposit a stable base currency into named projects; funds are
//! routed to an external yield-bearing money market while pending; release to
//! the project creator is gated by a multi-stage approval and milestone-voting
//! protocol; failure returns funds to contributors.
//!
//! The library works on plain values: the whole persistent state is the
//! [`state::Ledger`] value, every entry point is a function from the ledger and
//! the call's inputs to the new ledger, a list of emitted external
//! instructions, or an error.  The host shell that loads and stores the ledger,
//! queries external balances and executes the emitted instructions lives
//! outside the library.

pub mod contract;
pub mod error;
pub mod msg;
pub mod state;
