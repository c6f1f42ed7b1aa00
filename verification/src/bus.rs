//! Abstract two-wire bus transport.
//!
//! The device is a peer on a register-addressed bus; the driver only needs
//! one capability from the transport: write a byte sequence to an addressed
//! peer in one atomic transaction. The trait models the transport's visible
//! history as a specification-level log of issued transactions, so that the
//! driver's contracts can state exactly which payloads reach the wire.

use vstd::prelude::*;

verus! {

/// A blocking bus transport addressed by a 7-bit peer identifier.
///
/// An implementation must account for every write it is asked to perform in
/// its [`issued`](Bus::issued) log, whether or not the transaction succeeds:
/// a failed write was still attempted on the wire. Whether the next write
/// will be accepted is abstracted by [`ready`](Bus::ready).
pub trait Bus: Sized {
    /// The transport's own failure value (bus not acknowledged, arbitration
    /// lost, ...), surfaced verbatim to the driver's caller.
    type Error;

    /// The log of write transactions attempted so far, oldest first:
    /// each entry is the peer address and the payload handed to the wire.
    ///
    /// The default body is a placeholder that lets an unverified hardware
    /// transport outside this crate implement the trait without ghost
    /// state; a verified transport overrides it, since under the default
    /// no body of [`write`](Bus::write) can meet its postcondition.
    open spec fn issued(&self) -> Seq<(u8, Seq<u8>)> {
        Seq::empty()
    }

    /// Whether the transport will accept the next write transaction.
    /// A placeholder default, like [`issued`](Bus::issued).
    open spec fn ready(&self) -> bool {
        true
    }

    /// Write `bytes` to the peer at `address` in one transaction.
    fn write(&mut self, address: u8, bytes: &[u8]) -> (r: Result<(), Self::Error>)
        ensures
            final(self).issued() == old(self).issued().push((address, bytes@)),
            r is Ok <==> old(self).ready(),
    ;
}

} // verus!
