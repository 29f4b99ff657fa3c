//! A marshalling layer between a garbage-collected host runtime and native
//! code with explicit ownership.
//!
//! The library models the host's side of the boundary with plain values: a
//! host numeric value is its classification plus its printable form, a host
//! byte buffer lives in a [`host::HostContext`] and is addressed by handle,
//! and a GC root is an entry in the context's root count. On that model the
//! crate states and proves the conversion and lifetime-bridging protocol:
//! scalar conversions with safe-integer bounds, checksummed buffer borrows,
//! run-time borrow checking of wrapped native objects, persistent storage
//! that must be finalized exactly once, and the mapping of native errors to
//! host exceptions.

pub mod host;

pub mod checksum;

pub mod codec;

pub mod buffer;

pub mod object;

pub mod convert;

pub mod error;

pub mod async_call;

pub mod env;
