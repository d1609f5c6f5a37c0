use vstd::prelude::*;

verus! {

/// A bus-level communication failure. The core treats it as opaque data: it
/// is propagated unchanged to the caller, never inspected or recovered from.
/// The code identifies the failure to the platform that produced it.
#[derive(Clone, Copy, Debug, PartialEq, Eq, Structural)]
pub struct TransportError {
    pub code: u32,
}

/// The transport capability: a shared two-wire bus on which a device is
/// addressed by a 7-bit address. A platform (or a test double) implements it;
/// the core only depends on this contract.
///
/// The ghost model has two parts. `writes` is the log of committed write
/// transactions, so that a caller can state exactly what a successful
/// operation put on the wire and that a failed one wrote nothing. Whether the
/// next operation succeeds, which bytes a successful read returns, and which
/// error a failure reports are outside the core's control; `next_ok`,
/// `next_read` and `next_err` name them in the pre-state, so that every
/// operation's outcome is specified relative to them.
pub trait Transport: Sized {
    /// The write transactions committed so far: device address and the bytes
    /// carried by each. The default leaves the log unspecified; an
    /// implementor that wants callers to know what reached the wire gives
    /// it a real definition.
    open spec fn writes(&self) -> Seq<(u8, Seq<u8>)> {
        arbitrary()
    }

    /// Whether the next bus operation completes successfully. Unspecified by
    /// default: the core promises its callers only what holds for either
    /// outcome unless an implementor pins this down.
    open spec fn next_ok(&self) -> bool {
        arbitrary()
    }

    /// The error the next bus operation reports, if it fails. Unspecified by
    /// default.
    open spec fn next_err(&self) -> TransportError {
        arbitrary()
    }

    /// The bytes the next read returns, if it succeeds: exactly `len` bytes —
    /// partial reads are a failure, not a short result. Unspecified by
    /// default.
    open spec fn next_read(&self, len: nat) -> Seq<u8> {
        arbitrary()
    }

    /// Write `bytes` to the device at `dev` in one transaction. On success
    /// the transaction is committed whole; on failure nothing is written.
    fn write(&mut self, dev: u8, bytes: &Vec<u8>) -> (r: Result<(), TransportError>)
        ensures
            old(self).next_ok() ==> r is Ok && final(self).writes() == old(self).writes().push(
                (dev, bytes@),
            ),
            !old(self).next_ok() ==> r == Err::<(), TransportError>(old(self).next_err())
                && final(self).writes() == old(self).writes(),
    ;

    /// Write `bytes` to the device at `dev`, then read `len` bytes back,
    /// atomically with respect to other bus users. The leading write only
    /// selects what to read and commits no state on the device.
    fn write_read(&mut self, dev: u8, bytes: &Vec<u8>, len: usize) -> (r: Result<
        Vec<u8>,
        TransportError,
    >)
        ensures
            final(self).writes() == old(self).writes(),
            old(self).next_ok() ==> r is Ok && r->Ok_0@ == old(self).next_read(len as nat)
                && r->Ok_0@.len() == len,
            !old(self).next_ok() ==> r == Err::<Vec<u8>, TransportError>(old(self).next_err()),
    ;
}

} // verus!
