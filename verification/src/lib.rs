//! HTTP datagrams bound to request streams, and the `:protocol` token of
//! extended CONNECT.
//!
//! The wire image of a datagram is a variable-length "quarter stream id"
//! followed by the payload bytes. The contracts are stated over byte
//! sequences and proved by Verus; what is taken on trust of the `bytes` crate
//! stands in `buffers`.

pub mod buffers;
pub mod varint;
pub mod stream_id;
pub mod datagram;
pub mod connection;
pub mod ext;
