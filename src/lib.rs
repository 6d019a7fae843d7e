//! A transport-level forwarding proxy: the decisions of its TCP and UDP relays.
//!
//! The relays' sockets live with the caller. Each relay is a state machine here:
//! the caller performs one I/O operation, hands in what came of it, and carries
//! out the action that comes back.

pub mod pump;
pub mod session;
pub mod udp;
pub mod endpoint;
