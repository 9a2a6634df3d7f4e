//! A user-space TCP endpoint: the per-flow state machine of RFC 793,
//! its sequence-number bookkeeping, the passive-open handshake, the
//! acceptability test for incoming acknowledgments, and the demultiplexing
//! of raw IPv4 frames into per-flow state by four-tuple.
//!
//! Header parsing and serialization are delegated to an external codec
//! behind a few trusted declarations in `codec`; the raw-frame transport
//! is left to the surrounding program.

pub mod codec;
pub mod conn;
pub mod segment;
pub mod seqnum;
pub mod table;
