use vstd::prelude::*;

use crate::transport::{Transport, TransportError};

verus! {

/// A register descriptor: a logical register type tied to a fixed one-byte
/// address on the device. The address is a constant of the type and never
/// changes after definition.
pub trait Register {
    /// The register's fixed one-byte address.
    spec fn spec_addr() -> u8;

    /// The register's address, as a runtime value.
    fn addr() -> (r: u8)
        ensures
            r == Self::spec_addr(),
    ;
}

/// A register that can be decoded from the device: reading it selects the
/// register by its address, reads the register's fixed payload length, and
/// decodes the payload bytes into a fully populated value. Transport errors
/// are propagated unchanged, and a failed read decodes nothing.
pub trait ReadRegisterI2c: Register + Sized {
    /// The register's payload length on the wire, in bytes.
    spec fn spec_len() -> nat;

    /// How a payload of `spec_len` bytes decodes into a register value.
    spec fn spec_decode(bytes: Seq<u8>) -> Self;

    /// Read and decode this register from the device at `dev`. On success the
    /// result is exactly the decoding of the bytes the transport returned; a
    /// transport failure is propagated unchanged and writes nothing.
    fn from_i2c<T: Transport>(i2c: &mut T, dev: u8) -> (r: Result<Self, TransportError>)
        ensures
            final(i2c).writes() == old(i2c).writes(),
            old(i2c).next_ok() ==> r is Ok && r->Ok_0 == Self::spec_decode(
                old(i2c).next_read(Self::spec_len()),
            ),
            !old(i2c).next_ok() ==> r is Err && r->Err_0 == old(i2c).next_err(),
    ;
}

/// A register that can be encoded and written to the device: one write
/// transaction carrying the register address followed by the encoded payload.
/// Transport errors are propagated unchanged, and a failed write commits
/// nothing — no partial state reaches the device.
pub trait WriteRegisterI2c: Register + Sized {
    /// The payload bytes that encode this value on the wire, not including
    /// the leading register address.
    spec fn spec_payload(&self) -> Seq<u8>;

    /// Encode this value and write it to the device at `dev` in a single
    /// transaction of the register address followed by the payload.
    fn to_i2c<T: Transport>(&self, i2c: &mut T, dev: u8) -> (r: Result<(), TransportError>)
        ensures
            old(i2c).next_ok() ==> r is Ok && final(i2c).writes() == old(i2c).writes().push(
                (dev, seq![Self::spec_addr()] + self.spec_payload()),
            ),
            !old(i2c).next_ok() ==> r == Err::<(), TransportError>(old(i2c).next_err())
                && final(i2c).writes() == old(i2c).writes(),
    ;
}

} // verus!
