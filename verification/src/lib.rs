//! A verified token ledger.
//!
//! The ledger interprets opaque byte buffers as typed instructions and
//! mutates fixed-layout records stored in host-owned byte buffers, enforcing
//! ownership, multisignature quorums and balance invariants on every
//! mutation. The host chassis — how buffers are allocated and funded, and how
//! an invocation is dispatched — stays outside; it hands each invocation a
//! program identity, an ordered list of account handles and a raw
//! instruction payload, and on failure no buffer changes.
//!
//! - [`key`]: 32-byte public keys and the well-known sentinel keys.
//! - [`error`]: every failure the ledger reports.
//! - [`bytesutil`]: little-endian fields and tagged optional segments.
//! - [`state`]: the five fixed-layout records and their byte codecs.
//! - [`instruction`]: the tagged instruction codec and instruction builders.
//! - [`processor`]: authorization and the per-instruction state machine.

pub mod error;
pub mod key;
pub mod bytesutil;
pub mod state;
pub mod instruction;
pub mod processor;
