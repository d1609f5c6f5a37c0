use vstd::prelude::*;

use crate::register::{ReadRegisterI2c, Register, WriteRegisterI2c};
use crate::transport::{Transport, TransportError};

verus! {

/// Address of the identity register.
pub const WHOAMI_ADDR: u8 = 0x75;

/// Address of the three-axis raw acceleration sample register.
pub const ACCEL_ADDR: u8 = 0x3B;

/// Address of the accelerometer configuration register.
pub const ACCEL_CFG_ADDR: u8 = 0x1C;

/// The known-good identity value of the sensor.
pub const WHOAMI_EXPECTED: u8 = 104;

/// A big-endian unsigned 16-bit value read from two wire bytes.
pub open spec fn spec_be_u16(hi: u8, lo: u8) -> u16 {
    (hi * 256 + lo) as u16
}

/// Combine two wire bytes, most significant first, into one 16-bit count.
pub fn be_u16(hi: u8, lo: u8) -> (r: u16)
    ensures
        r == spec_be_u16(hi, lo),
{
    (hi as u16) * 256 + (lo as u16)
}

/// The identity register: a single read-only byte, compared for equality
/// against [`WHOAMI_EXPECTED`].
#[derive(Debug, Copy, Clone, PartialEq, Eq, Structural)]
pub struct WhoAmI(pub u8);

impl Default for WhoAmI {
    /// The known-good identity value.
    fn default() -> (r: Self)
        ensures
            r == WhoAmI(WHOAMI_EXPECTED),
    {
        WhoAmI(WHOAMI_EXPECTED)
    }
}

impl Register for WhoAmI {
    open spec fn spec_addr() -> u8 {
        WHOAMI_ADDR
    }

    fn addr() -> u8 {
        WHOAMI_ADDR
    }
}

impl ReadRegisterI2c for WhoAmI {
    open spec fn spec_len() -> nat {
        1
    }

    open spec fn spec_decode(bytes: Seq<u8>) -> Self {
        WhoAmI(bytes[0])
    }

    fn from_i2c<T: Transport>(i2c: &mut T, dev: u8) -> (r: Result<Self, TransportError>) {
        let mut sel: Vec<u8> = Vec::new();
        sel.push(Self::addr());
        match i2c.write_read(dev, &sel, 1) {
            Ok(buf) => Ok(WhoAmI(buf[0])),
            Err(e) => Err(e),
        }
    }
}

/// The three-axis raw sample register: three consecutive big-endian unsigned
/// 16-bit counts for x, y and z, read whole in one six-byte transaction from
/// the non-overlapping byte ranges `[0, 2)`, `[2, 4)` and `[4, 6)`.
#[derive(Debug, Copy, Clone, PartialEq, Eq, Structural)]
pub struct Accel {
    pub x: u16,
    pub y: u16,
    pub z: u16,
}

impl Default for Accel {
    fn default() -> (r: Self)
        ensures
            r == (Accel { x: 0, y: 0, z: 0 }),
    {
        Accel { x: 0, y: 0, z: 0 }
    }
}

impl Register for Accel {
    open spec fn spec_addr() -> u8 {
        ACCEL_ADDR
    }

    fn addr() -> u8 {
        ACCEL_ADDR
    }
}

impl ReadRegisterI2c for Accel {
    open spec fn spec_len() -> nat {
        6
    }

    open spec fn spec_decode(bytes: Seq<u8>) -> Self {
        Accel {
            x: spec_be_u16(bytes[0], bytes[1]),
            y: spec_be_u16(bytes[2], bytes[3]),
            z: spec_be_u16(bytes[4], bytes[5]),
        }
    }

    fn from_i2c<T: Transport>(i2c: &mut T, dev: u8) -> (r: Result<Self, TransportError>) {
        let mut sel: Vec<u8> = Vec::new();
        sel.push(Self::addr());
        match i2c.write_read(dev, &sel, 6) {
            Ok(buf) => Ok(
                Accel {
                    x: be_u16(buf[0], buf[1]),
                    y: be_u16(buf[2], buf[3]),
                    z: be_u16(buf[4], buf[5]),
                },
            ),
            Err(e) => Err(e),
        }
    }
}

/// The accelerometer full-scale range selector: a bounded enumeration of the
/// four values the two-bit wire field can carry, plus an `Unknown` sentinel
/// for any numeric value outside the defined set. The sentinel keeps decoding
/// total: with a two-bit field it is unreachable, but it is required if the
/// field is ever widened.
#[derive(Debug, Copy, Clone, PartialEq, Eq, Structural)]
pub enum AccelRange {
    PlusMinus2G,
    PlusMinus4G,
    PlusMinus8G,
    PlusMinus16G,
    Unknown,
}

impl Default for AccelRange {
    fn default() -> (r: Self)
        ensures
            r == AccelRange::PlusMinus16G,
    {
        AccelRange::PlusMinus16G
    }
}

impl AccelRange {
    /// The range a numeric field value denotes: `0, 1, 2, 3` are the four
    /// defined ranges in increasing order; anything else is `Unknown`.
    pub open spec fn spec_new(x: u8) -> Self {
        if x == 0 {
            AccelRange::PlusMinus2G
        } else if x == 1 {
            AccelRange::PlusMinus4G
        } else if x == 2 {
            AccelRange::PlusMinus8G
        } else if x == 3 {
            AccelRange::PlusMinus16G
        } else {
            AccelRange::Unknown
        }
    }

    /// Map a numeric field value to the range it denotes. Decoding never
    /// fails: an unrecognized value maps to the `Unknown` sentinel.
    pub fn new(x: u8) -> (r: Self)
        ensures
            r == Self::spec_new(x),
    {
        match x {
            0 => AccelRange::PlusMinus2G,
            1 => AccelRange::PlusMinus4G,
            2 => AccelRange::PlusMinus8G,
            3 => AccelRange::PlusMinus16G,
            _ => AccelRange::Unknown,
        }
    }

    /// The two-bit wire encoding of a range. The `Unknown` sentinel has no
    /// wire form of its own and encodes as the zero pattern.
    pub open spec fn spec_bits(self) -> u8 {
        match self {
            AccelRange::PlusMinus2G => 0,
            AccelRange::PlusMinus4G => 1,
            AccelRange::PlusMinus8G => 2,
            AccelRange::PlusMinus16G => 3,
            AccelRange::Unknown => 0,
        }
    }

    /// The range's numeric encoding for the two-bit wire field.
    pub fn bits(&self) -> (r: u8)
        ensures
            r == self.spec_bits(),
    {
        match self {
            AccelRange::PlusMinus2G => 0,
            AccelRange::PlusMinus4G => 1,
            AccelRange::PlusMinus8G => 2,
            AccelRange::PlusMinus16G => 3,
            AccelRange::Unknown => 0,
        }
    }

    /// Whether the range is one of the four defined values, not the sentinel.
    pub open spec fn is_defined(self) -> bool {
        self != AccelRange::Unknown
    }
}

/// The flag bit a boolean packs to.
pub open spec fn spec_flag_bit(b: bool) -> u8 {
    if b {
        1
    } else {
        0
    }
}

/// The accelerometer configuration register: three per-axis self-test flags
/// and the full-scale range selector, packed into one payload byte.
///
/// Layout, most significant bit first: bit 7 = self-test x, bit 6 =
/// self-test y, bit 5 = self-test z, bits 4-3 = range selector, bits 2-0
/// reserved — written as zero on encode, ignored on decode.
#[derive(Debug, Copy, Clone, PartialEq, Eq, Structural)]
pub struct AccelCfg {
    pub test_x: bool,
    pub test_y: bool,
    pub test_z: bool,
    pub range: AccelRange,
}

impl Default for AccelCfg {
    /// All self-test flags off, at the default range.
    fn default() -> (r: Self)
        ensures
            r == (AccelCfg {
                test_x: false,
                test_y: false,
                test_z: false,
                range: AccelRange::PlusMinus16G,
            }),
    {
        AccelCfg { test_x: false, test_y: false, test_z: false, range: AccelRange::PlusMinus16G }
    }
}

impl AccelCfg {
    /// The payload byte a configuration packs to.
    pub open spec fn spec_encode(self) -> u8 {
        (spec_flag_bit(self.test_x) << 7) | (spec_flag_bit(self.test_y) << 6) | (spec_flag_bit(
            self.test_z,
        ) << 5) | (self.range.spec_bits() << 3)
    }

    /// The configuration a payload byte unpacks to. Total: the range field is
    /// two bits wide, so every byte decodes to a defined range, and the
    /// reserved bits 2-0 are ignored.
    pub open spec fn spec_decode_byte(b: u8) -> Self {
        AccelCfg {
            test_x: (b >> 7) & 1 == 1,
            test_y: (b >> 6) & 1 == 1,
            test_z: (b >> 5) & 1 == 1,
            range: AccelRange::spec_new((b >> 3) & 3),
        }
    }

    /// Pack the flags and the range's numeric encoding into the payload byte.
    pub fn encode_byte(&self) -> (r: u8)
        ensures
            r == self.spec_encode(),
    {
        let xb: u8 = if self.test_x {
            1
        } else {
            0
        };
        let yb: u8 = if self.test_y {
            1
        } else {
            0
        };
        let zb: u8 = if self.test_z {
            1
        } else {
            0
        };
        (xb << 7) | (yb << 6) | (zb << 5) | (self.range.bits() << 3)
    }

    /// Unpack a payload byte into flags and range at the fixed bit positions.
    pub fn decode_byte(b: u8) -> (r: Self)
        ensures
            r == Self::spec_decode_byte(b),
    {
        AccelCfg {
            test_x: (b >> 7) & 1 == 1,
            test_y: (b >> 6) & 1 == 1,
            test_z: (b >> 5) & 1 == 1,
            range: AccelRange::new((b >> 3) & 3),
        }
    }
}

/// Law: the wire format round-trips. For every representable configuration —
/// any combination of flags with one of the four defined ranges — decoding
/// the encoded payload byte reproduces the same flags and range.
pub proof fn lemma_cfg_round_trip(v: AccelCfg)
    requires
        v.range.is_defined(),
    ensures
        AccelCfg::spec_decode_byte(v.spec_encode()) == v,
{
    let xb = spec_flag_bit(v.test_x);
    let yb = spec_flag_bit(v.test_y);
    let zb = spec_flag_bit(v.test_z);
    let rb = v.range.spec_bits();
    let b = v.spec_encode();
    assert((b >> 7) & 1 == xb && (b >> 6) & 1 == yb && (b >> 5) & 1 == zb && (b >> 3) & 3 == rb)
        by (bit_vector)
        requires
            xb <= 1,
            yb <= 1,
            zb <= 1,
            rb <= 3,
            b == (xb << 7) | (yb << 6) | (zb << 5) | (rb << 3),
    ;
}


impl Register for AccelCfg {
    open spec fn spec_addr() -> u8 {
        ACCEL_CFG_ADDR
    }

    fn addr() -> u8 {
        ACCEL_CFG_ADDR
    }
}

impl ReadRegisterI2c for AccelCfg {
    open spec fn spec_len() -> nat {
        1
    }

    open spec fn spec_decode(bytes: Seq<u8>) -> Self {
        Self::spec_decode_byte(bytes[0])
    }

    fn from_i2c<T: Transport>(i2c: &mut T, dev: u8) -> (r: Result<Self, TransportError>) {
        let mut sel: Vec<u8> = Vec::new();
        sel.push(Self::addr());
        match i2c.write_read(dev, &sel, 1) {
            Ok(buf) => Ok(Self::decode_byte(buf[0])),
            Err(e) => Err(e),
        }
    }
}

impl WriteRegisterI2c for AccelCfg {
    open spec fn spec_payload(&self) -> Seq<u8> {
        seq![self.spec_encode()]
    }

    fn to_i2c<T: Transport>(&self, i2c: &mut T, dev: u8) -> (r: Result<(), TransportError>) {
        let mut frame: Vec<u8> = Vec::new();
        frame.push(Self::addr());
        frame.push(self.encode_byte());
        proof {
            assert(frame@ =~= seq![Self::spec_addr()] + self.spec_payload());
        }
        i2c.write(dev, &frame)
    }
}


/// Law: configuration decoding is total and never needs the sentinel. The
/// range field is two bits wide, so every payload byte decodes to one of the
/// four defined ranges; the `Unknown` sentinel is reachable only through
/// [`AccelRange::new`] on a widened field.
pub proof fn lemma_decode_range_always_defined(b: u8)
    ensures
        AccelCfg::spec_decode_byte(b).range.is_defined(),
{
    assert((b >> 3) & 3 <= 3) by (bit_vector);
}

/// Law: encoding writes the reserved bits 2-0 as zero for every
/// configuration value.
pub proof fn lemma_encode_reserved_bits_zero(v: AccelCfg)
    ensures
        v.spec_encode() & 7 == 0,
{
    let xb = spec_flag_bit(v.test_x);
    let yb = spec_flag_bit(v.test_y);
    let zb = spec_flag_bit(v.test_z);
    let rb = v.range.spec_bits();
    assert(((xb << 7) | (yb << 6) | (zb << 5) | (rb << 3)) & 7 == 0) by (bit_vector)
        requires
            rb <= 3,
    ;
}

} // verus!
