//! Client-side transport core for an RPC client.
//!
//! Two independent pieces:
//!
//! - the duplex pump: the state machine that bridges an outbound frame
//!   queue to a framed sink and a framed source to an inbound frame
//!   stream, writing outbound frames in submission order and cutting the
//!   inbound stream permanently at the first read error;
//! - the timeout decorator: a race between an in-flight operation and a
//!   deadline timer, resolved by checking the operation before the timer
//!   on every scheduling step, so a result that arrives together with the
//!   deadline still counts as success.
//!
//! The asynchronous shell (sockets, codec, timers, task spawning) lives
//! outside this crate; the decisions it must take are verified here.

pub mod error;
pub mod frame;
pub mod pump;
pub mod queue;
pub mod timeout;

pub use error::Elapsed;
pub use error::RpcError;
pub use frame::Frame;
pub use queue::OutboundQueue;
pub use timeout::Timeout;
