//! Control-plane transport between a short-lived command-line client and a
//! long-running daemon: fixed-size wire records, paging of payloads into
//! segments, reassembly and decoding of replies, and the decisions of the
//! fork/detach sequence.
pub mod endian;
pub mod wire;
pub mod paging;
pub mod reassembly;
pub mod error;
pub mod response;
pub mod messaging;
pub mod daemon;
