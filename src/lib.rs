//! A small peer-to-peer file transfer protocol: the wire codec, the idle-timeout
//! rule for byte streams, chunked payload planning and the two session roles.
//! Everything here works on plain values; reading and writing the stream is left
//! to the caller, which hands each received piece to these functions.
#![allow(unused_imports)]

pub mod chunk;
pub mod error;
pub mod idle;
pub mod session;
pub mod wire;
