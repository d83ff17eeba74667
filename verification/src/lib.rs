//! A minimal runtime for live, reconfigurable networks of concurrent
//! stream-transform actors.
//!
//! Each actor owns a data channel, a control channel, a transform state and a
//! list of subscriber senders, and runs one execution loop: drain control
//! commands first, then take one data item, transform it, and fan the result
//! out to every subscriber, pruning the ones whose peer has gone away.

pub mod channel;
pub mod node;
pub mod protocol;
pub mod samples;
