//! Verified core of a network interface address listing.
//!
//! The operating system hands out its interface addresses as a chain of native
//! records that stays valid until it is released. This crate holds the part of
//! such a listing that can be reasoned about: the owner of one snapshot and
//! the rule by which it is released, the forward walk over its records, and
//! the decoding of the socket addresses that a record carries. The calls into
//! the operating system are made by the caller, who hands their outcome over
//! as plain values.

pub mod address;
pub mod laws;
pub mod list;
pub mod record;
