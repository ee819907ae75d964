//! Keyed HighwayHash of byte streams, with digests of 64, 128 or 256 bits.
//!
//! The hash function itself is that of the `highway` crate. This library is
//! what stands between it and a host:
//!
//! - `codec`: keys and digests on the wire, as 64-bit words with the least
//!   significant byte first;
//! - `key`: the key that a key buffer stands for, the default key for an
//!   empty one;
//! - `stream`: the account of a hash computation, of which a digest is a
//!   function;
//! - `session`: one computation from key to digest, finalized once;
//! - `native`, `web`: hashers for hosts that hold an object of their own;
//! - `arena`: a table of sessions of fixed capacity, addressed by integer
//!   handles, for hosts that can hold nothing but a number;
//! - `hasher`: the calls into `highway`, with what is taken on trust of them.

pub mod arena;
pub mod codec;
pub mod error;
pub mod hasher;
pub mod key;
pub mod native;
pub mod session;
pub mod stream;
pub mod web;
