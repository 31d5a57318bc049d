//! Resumable cross-chain transfer state machine for a lock-and-mint /
//! burn-and-release bridge between an account-based source chain and a
//! cell-based destination chain.
//!
//! The library decides; it never touches a network or a disk. A caller asks
//! what to do next for a transfer, performs that one chain operation, and
//! reports what came back. Every decision is a function of the persisted
//! record and the reported outcome, so a transfer can be resumed after any
//! interruption.

pub mod codec;
pub mod command;
pub mod engine;
pub mod error;
pub mod progress;
pub mod record;
pub mod status;
pub mod store;
