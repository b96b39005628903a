//! A marketplace ledger for non-fungible assets.
//!
//! Listings are sold at a fixed price, auctioned, or traded against standing
//! offers.  Every trade settles by a sequence of independently failable
//! transfers against external custodial ledgers, reached only through
//! asynchronous request/reply calls.  The library is the decision core of
//! that protocol: each operation validates its preconditions, consults the
//! per-listing saga slot, and either finishes at once or hands the caller an
//! external call to perform together with a continuation.  Feeding the
//! reply back into the continuation drives the operation to its next step.
//! The caller (an ordinary, unverified driver) owns the message loop; all
//! state transitions and their guarantees live here.

pub mod auction;
pub mod laws;
pub mod market;
pub mod offers;
pub mod saga;
pub mod sale;
pub mod types;
