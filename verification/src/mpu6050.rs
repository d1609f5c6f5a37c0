use vstd::prelude::*;

use crate::imu::{spec_scale, AccelRaw, GyroRaw, Vector3};
use crate::register::{ReadRegisterI2c, Register, WriteRegisterI2c};
use crate::registers::{Accel, AccelCfg, AccelRange, WhoAmI, ACCEL_CFG_ADDR, WHOAMI_EXPECTED};
use crate::transport::{Transport, TransportError};

verus! {

/// The sensor's fixed 7-bit bus address.
pub const MPU6050_DEV_ADDR: u8 = 0x68;

/// A driver-level failure: either the bus failed, or it answered but the
/// device is not the one expected. The two are distinct — an identity
/// mismatch means wrong or absent hardware, not a communication fault.
#[derive(Debug, Copy, Clone, PartialEq, Eq, Structural)]
pub enum Error {
    /// The transport failed; the bus-level error is carried unchanged.
    Transport(TransportError),
    /// The identity register was read but did not hold the expected value.
    IdentityMismatch,
}

/// The device configuration a driver is constructed with. It is immutable
/// once constructed and written to the device whole, exactly once, by
/// [`Driver::configure`].
#[derive(Debug, Copy, Clone, PartialEq, Eq, Structural)]
pub struct Config {
    pub accel: AccelCfg,
}

impl Default for Config {
    /// All self-test flags off, at the default range.
    fn default() -> (r: Self)
        ensures
            r == (Config {
                accel: AccelCfg {
                    test_x: false,
                    test_y: false,
                    test_z: false,
                    range: AccelRange::PlusMinus16G,
                },
            }),
    {
        Config {
            accel: AccelCfg {
                test_x: false,
                test_y: false,
                test_z: false,
                range: AccelRange::PlusMinus16G,
            },
        }
    }
}

/// The sensor driver: exclusive owner of one transport instance and one
/// configuration value. Constructed once, then asked to check the device's
/// identity, write the configuration, and fetch raw or scaled samples.
pub struct Driver<T> {
    pub cfg: Config,
    pub i2c: T,
}

/// The verdict on a read identity value: success exactly on the known-good
/// value, and an identity mismatch — never a transport error — on any other.
pub fn identity_verdict(got: WhoAmI) -> (r: Result<(), Error>)
    ensures
        got.0 == WHOAMI_EXPECTED ==> r == Ok::<(), Error>(()),
        got.0 != WHOAMI_EXPECTED ==> r == Err::<(), Error>(Error::IdentityMismatch),
{
    let expected = WhoAmI::default();
    if expected == got {
        Ok(())
    } else {
        Err(Error::IdentityMismatch)
    }
}

impl<T: Transport> Driver<T> {
    /// Take ownership of a transport and a configuration.
    pub fn new(i2c: T, cfg: Config) -> (r: Self)
        ensures
            r.i2c == i2c,
            r.cfg == cfg,
    {
        Driver { i2c, cfg }
    }

    /// Encode the configuration register and write it to the device in one
    /// transaction. A transport failure is propagated unchanged as
    /// [`Error::Transport`], and then nothing was written: no partial state
    /// reaches the device. The driver's own configuration never changes.
    pub fn configure(&mut self) -> (r: Result<(), Error>)
        ensures
            final(self).cfg == old(self).cfg,
            old(self).i2c.next_ok() ==> r == Ok::<(), Error>(()) && final(self).i2c.writes()
                == old(self).i2c.writes().push(
                (MPU6050_DEV_ADDR, seq![ACCEL_CFG_ADDR, old(self).cfg.accel.spec_encode()]),
            ),
            !old(self).i2c.next_ok() ==> r == Err::<(), Error>(
                Error::Transport(old(self).i2c.next_err()),
            ) && final(self).i2c.writes() == old(self).i2c.writes(),
    {
        let accel = self.cfg.accel;
        let r = accel.to_i2c(&mut self.i2c, MPU6050_DEV_ADDR);
        proof {
            assert(seq![AccelCfg::spec_addr()] + accel.spec_payload() =~= seq![
                ACCEL_CFG_ADDR,
                accel.spec_encode(),
            ]);
        }
        match r {
            Ok(()) => Ok(()),
            Err(e) => Err(Error::Transport(e)),
        }
    }

    /// Read the identity register and compare it to the expected constant.
    /// Succeeds exactly when the read succeeds and returns the known-good
    /// value; any other value is an identity mismatch, and a transport
    /// failure is propagated unchanged. Nothing is written to the device.
    pub fn check_whoami(&mut self) -> (r: Result<(), Error>)
        ensures
            final(self).cfg == old(self).cfg,
            final(self).i2c.writes() == old(self).i2c.writes(),
            old(self).i2c.next_ok() ==> r == (if old(self).i2c.next_read(1)[0] == WHOAMI_EXPECTED {
                Ok::<(), Error>(())
            } else {
                Err::<(), Error>(Error::IdentityMismatch)
            }),
            !old(self).i2c.next_ok() ==> r == Err::<(), Error>(
                Error::Transport(old(self).i2c.next_err()),
            ),
    {
        match WhoAmI::from_i2c(&mut self.i2c, MPU6050_DEV_ADDR) {
            Ok(got) => identity_verdict(got),
            Err(e) => Err(Error::Transport(e)),
        }
    }
}

impl<T: Transport> GyroRaw for Driver<T> {
    open spec fn gyro_ratio_spec(&self) -> (u16, u16) {
        (1, 2000)
    }

    open spec fn gyro_fetch_ok(&self) -> bool {
        true
    }

    open spec fn gyro_next_raw(&self) -> Vector3 {
        Vector3 { x: 0, y: 0, z: 0 }
    }

    open spec fn gyro_err(&self) -> TransportError {
        TransportError { code: 0 }
    }

    proof fn gyro_ratio_wf(&self) {
        assert forall|raw: u16| #[trigger] spec_scale(raw, 1, 2000) <= u16::MAX by {
            assert(raw * 1 / 2000 <= raw) by (nonlinear_arith);
        }
    }

    fn angular_rate_lsb_ratio(&self) -> (u16, u16) {
        (1, 2000)
    }

    /// The angular-rate register of this device is not wired up yet: the
    /// fetch always succeeds with a zero sample. The capability interface
    /// already supports a real register-backed implementation.
    fn angular_rate_raw(&self) -> Result<Vector3, TransportError> {
        Ok(Vector3 { x: 0, y: 0, z: 0 })
    }
}

impl<T: Transport> AccelRaw for Driver<T> {
    open spec fn accel_ratio_spec(&self) -> (u16, u16) {
        (1, 2000)
    }

    open spec fn accel_fetch_ok(&self) -> bool {
        self.i2c.next_ok()
    }

    open spec fn accel_next_raw(&self) -> Vector3 {
        let a = <Accel as ReadRegisterI2c>::spec_decode(
            self.i2c.next_read(<Accel as ReadRegisterI2c>::spec_len()),
        );
        Vector3 { x: a.x, y: a.y, z: a.z }
    }

    open spec fn accel_err(&self) -> TransportError {
        self.i2c.next_err()
    }

    proof fn accel_ratio_wf(&self) {
        assert forall|raw: u16| #[trigger] spec_scale(raw, 1, 2000) <= u16::MAX by {
            assert(raw * 1 / 2000 <= raw) by (nonlinear_arith);
        }
    }

    fn acceleration_lsb_ratio(&self) -> (u16, u16) {
        (1, 2000)
    }

    /// Read the three-axis raw sample register; the sample is fully
    /// populated or the fetch fails whole. Reading writes nothing to the
    /// device and leaves the configuration untouched.
    fn acceleration_raw(&mut self) -> (r: Result<Vector3, TransportError>)
        ensures
            final(self).cfg == old(self).cfg,
            final(self).i2c.writes() == old(self).i2c.writes(),
    {
        match Accel::from_i2c(&mut self.i2c, MPU6050_DEV_ADDR) {
            Ok(a) => Ok(Vector3 { x: a.x, y: a.y, z: a.z }),
            Err(e) => Err(e),
        }
    }
}

} // verus!
