//! Connection management for a long-lived update subscription.
//!
//! The crate holds the decisions of a subscription client and none of its
//! transport: how long to wait before a reconnect and when to give up, what
//! to do with each inbound update, how to answer a heartbeat, and how the
//! connection moves between its phases.
//!
//! A [`GrpcStreamManager`] decides and a driver acts. The driver begins a
//! cycle with `connect`, performs the [`Action`] it is handed, reports the
//! outcome as an [`Event`] to `step`, and goes on with the action that comes
//! back, until that action is `Fail`. The manager never blocks and never
//! touches the network, so that everything it does is stated in its
//! contracts and proved:
//!
//! - [`backoff`]: the wait before each reconnect, and the ceiling on
//!   attempts;
//! - [`keepalive`]: the acknowledgement owed to a heartbeat frame;
//! - [`receive`]: the answer to each inbound update;
//! - [`manager`]: the phases of a connection and the transitions between
//!   them;
//! - [`credential`] and [`transport`]: what a manager may be constructed
//!   from;
//! - [`theorems`]: what follows for every run of updates and every
//!   sequence of failures.

pub mod backoff;
pub mod credential;
pub mod keepalive;
pub mod manager;
pub mod protocol;
pub mod receive;
pub mod theorems;
pub mod transport;

pub use backoff::BackoffPolicy;
pub use manager::{GrpcStreamManager, ManagerState};
pub use protocol::{Action, Event, HeartbeatAck, ManagerError, Phase, StreamTask, Update};
