//! Decoding and history-reassembly logic for an Aranet4 environmental
//! sensor: the sensor value codec, the current-reading snapshot decoder,
//! the history range-request encoder, and the state machine that rebuilds
//! a complete sample series from an unordered stream of notification
//! frames.  All transport (BLE discovery, reads, writes, subscriptions)
//! lives outside this crate; every function here works on plain bytes and
//! values and carries a proved contract.

use vstd::prelude::*;

pub mod codec;
pub mod reassembler;
pub mod request;
pub mod sensor;
pub mod session;
pub mod snapshot;

verus! {

/// Failures of decoding and of the history protocol.  Transport failures
/// are the caller's concern and have no variant here.
#[derive(Clone, Copy, Debug, PartialEq, Eq, Structural)]
pub enum ProtocolError {
    /// A fixed-layout packet was shorter than its required length; the
    /// decode failed atomically and produced nothing.
    BufferUnderflow,
    /// A notification frame did not belong to the retrieval in progress.
    ProtocolViolation,
}

} // verus!
