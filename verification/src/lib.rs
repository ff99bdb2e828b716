//! A ledger-hosted reroll program for a non-fungible-token collection.
//!
//! Holders of a configured collection pay a fixed fee to request a "reroll"
//! of one of their tokens; the program keeps one permanent record per token,
//! and when the collection later hands the token over (a confirmation
//! callback) it pays the original requester a fixed reward and marks the
//! record as rerolled.  An administrator adjusts the fee parameters and can
//! withdraw accumulated funds.
//!
//! The crate holds the full decision logic as verified state transitions
//! over plain values; the hosting runtime (storage, queries, message
//! dispatch) sits outside and hands each command's inputs in.

pub mod contract;
pub mod error;
pub mod msg;
pub mod num;
pub mod order;
pub mod response;
pub mod state;
pub mod utils;
