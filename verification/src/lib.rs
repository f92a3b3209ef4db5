//! A point-to-point, substream-level notification protocol, and a small
//! vault ledger.
//!
//! One peer opens a unidirectional, long-lived channel of discrete
//! application messages ("notifications") to another peer. The channel is
//! preceded by a single bounded handshake exchange that lets either side
//! validate or refuse the channel before committing to it. Every length
//! prefix on the wire is an unsigned LEB128 variable-length integer.
//!
//! The protocol lives in [`varint`], [`codec`], [`transport`],
//! [`inbound`], [`outbound`], [`upgrade`] and [`error`]: the negotiators
//! and substreams are poll-driven state machines over an explicit
//! byte-level socket model, and their contracts describe each poll step
//! exactly. Beside it, [`vault`] and [`weights`] hold an account ledger
//! of deposits, withdrawals and strategy subscriptions, with the weight
//! of each call, and [`motion`] holds the voting calculus of a
//! collective's motions.

pub mod varint;
pub mod codec;
pub mod error;
pub mod transport;
pub mod inbound;
pub mod outbound;
pub mod types;
pub mod upgrade;
pub mod motion;
pub mod vault;
pub mod weights;
