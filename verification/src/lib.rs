//! Client-side engine for the NETDUMP protocol: a small TCP protocol used to
//! retrieve optical-disc images and metadata from a remote disc-reading
//! peripheral and to issue control commands to it.
//!
//! The crate holds the protocol logic only: frame encoding and validation,
//! command and status code tables for the supported protocol revisions,
//! decoding of the fixed-width disc-metadata payload, the bounded-buffer
//! streaming state machines for large payloads, and the per-session command
//! dispatch and teardown state machine. All socket and file I/O stays with
//! the caller, which drives the state machines with the bytes it reads.

pub mod codec;
pub mod discinfo;
pub mod protocol;
pub mod session;
pub mod stream;
