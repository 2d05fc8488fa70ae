//! Decoder for the binary header of the PROXY protocol, version 2.
//!
//! A load balancer that forwards a TCP connection can prepend a small binary
//! header carrying the original client's transport metadata: address family,
//! transport kind, source and destination addresses and ports.  This crate
//! decodes that header from a byte slice that may hold an arbitrary chunk of
//! the stream, distinguishing "not enough bytes yet" from "this is not a
//! valid header".
//!
//! The entry point is [`decode::parse_v2_header`].  Its result is pinned, for
//! every input, to the mathematical model [`wire::spec_decode`] of the wire
//! format.

pub mod decode;
pub mod laws;
pub mod types;
pub mod wire;

pub use decode::parse_v2_header;
