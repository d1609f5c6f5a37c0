use vstd::prelude::*;

use crate::transport::TransportError;

verus! {

/// A three-component vector of raw or scaled sensor counts.
#[derive(Debug, Copy, Clone, PartialEq, Eq, Structural)]
pub struct Vector3 {
    pub x: u16,
    pub y: u16,
    pub z: u16,
}

/// The count-to-physical-unit conversion of one component: the raw count
/// times the ratio's numerator, divided by its denominator, in integer
/// arithmetic.
pub open spec fn spec_scale(raw: u16, n: u16, d: u16) -> int {
    raw * n / (d as int)
}

/// Scale one raw count by the ratio `(n, d)`.
pub fn scale(raw: u16, n: u16, d: u16) -> (r: u16)
    requires
        d != 0,
        spec_scale(raw, n, d) <= u16::MAX,
    ensures
        r == spec_scale(raw, n, d),
{
    proof {
        assert((raw as int) * (n as int) <= 0xffff * 0xffff) by (nonlinear_arith)
            requires
                raw <= 0xffff,
                n <= 0xffff,
        ;
    }
    let wide: u32 = (raw as u32) * (n as u32);
    let q: u32 = wide / (d as u32);
    q as u16
}

/// The conversion applied componentwise to a raw sample.
pub open spec fn spec_scale_vec3(v: Vector3, n: u16, d: u16) -> Vector3 {
    Vector3 {
        x: spec_scale(v.x, n, d) as u16,
        y: spec_scale(v.y, n, d) as u16,
        z: spec_scale(v.z, n, d) as u16,
    }
}

/// Scale each component of a raw sample by the ratio `(n, d)`.
pub fn scale_vec3(v: Vector3, n: u16, d: u16) -> (r: Vector3)
    requires
        d != 0,
        spec_scale(v.x, n, d) <= u16::MAX,
        spec_scale(v.y, n, d) <= u16::MAX,
        spec_scale(v.z, n, d) <= u16::MAX,
    ensures
        r == spec_scale_vec3(v, n, d),
{
    Vector3 { x: scale(v.x, n, d), y: scale(v.y, n, d), z: scale(v.z, n, d) }
}

/// Law: the conversion is componentwise. For every raw sample and every
/// ratio with a nonzero denominator whose scaled components are
/// representable, each component of the converted vector is the raw
/// component times the numerator, divided by the denominator — whichever
/// capability supplied the sample, since both conversions go through
/// [`spec_scale_vec3`].
pub proof fn lemma_scale_componentwise(v: Vector3, n: u16, d: u16)
    requires
        d != 0,
        spec_scale(v.x, n, d) <= u16::MAX,
        spec_scale(v.y, n, d) <= u16::MAX,
        spec_scale(v.z, n, d) <= u16::MAX,
    ensures
        spec_scale_vec3(v, n, d).x == v.x * n / (d as int),
        spec_scale_vec3(v, n, d).y == v.y * n / (d as int),
        spec_scale_vec3(v, n, d).z == v.z * n / (d as int),
{
    lemma_scale_fits(v.x, n, d);
    lemma_scale_fits(v.y, n, d);
    lemma_scale_fits(v.z, n, d);
}

/// A scaled component always fits back into its numeric type when the
/// numerator does not exceed the denominator; in general it is bounded by
/// the raw count times the numerator.
pub proof fn lemma_scale_fits(raw: u16, n: u16, d: u16)
    requires
        d != 0,
    ensures
        0 <= spec_scale(raw, n, d) <= u16::MAX * u16::MAX,
        n <= d ==> spec_scale(raw, n, d) <= raw,
{
    let r = raw as int;
    let ni = n as int;
    let di = d as int;
    assert(0 <= r * ni / di <= 0xffff * 0xffff && (ni <= di ==> r * ni / di <= r))
        by (nonlinear_arith)
        requires
            di > 0,
            0 <= r <= 0xffff,
            0 <= ni <= 0xffff,
    ;
}

/// The raw gyroscope capability: the scale ratio that turns a raw count into
/// an angular rate, and a fetch of the latest raw three-axis sample.
///
/// `gyro_ratio_spec`, `gyro_fetch_ok`, `gyro_next_raw` and `gyro_err` model
/// the implementor: its ratio, whether the next fetch succeeds, the sample a
/// successful fetch returns, and the error a failed one reports.
pub trait GyroRaw: Sized {
    /// The implementor's (numerator, denominator) scale ratio.
    spec fn gyro_ratio_spec(&self) -> (u16, u16);

    /// Whether the next raw fetch succeeds.
    spec fn gyro_fetch_ok(&self) -> bool;

    /// The sample the next successful raw fetch returns.
    spec fn gyro_next_raw(&self) -> Vector3;

    /// The error the next raw fetch reports, if it fails.
    spec fn gyro_err(&self) -> TransportError;

    /// The ratio has a nonzero denominator and never scales a raw count out
    /// of range; this makes the shared conversion total over fetched samples.
    proof fn gyro_ratio_wf(&self)
        ensures
            self.gyro_ratio_spec().1 != 0,
            forall|raw: u16|
                #[trigger] spec_scale(raw, self.gyro_ratio_spec().0, self.gyro_ratio_spec().1)
                    <= u16::MAX,
    ;

    /// Ratio to apply to raw readings to get the angular rate, as
    /// `reading * ratio.0 / ratio.1`.
    fn angular_rate_lsb_ratio(&self) -> (r: (u16, u16))
        ensures
            r == self.gyro_ratio_spec(),
    ;

    /// Fetch the latest raw angular-rate sample.
    fn angular_rate_raw(&self) -> (r: Result<Vector3, TransportError>)
        ensures
            self.gyro_fetch_ok() ==> r == Ok::<Vector3, TransportError>(self.gyro_next_raw()),
            !self.gyro_fetch_ok() ==> r == Err::<Vector3, TransportError>(self.gyro_err()),
    ;
}

/// Angular rate in physical units, derived once from any [`GyroRaw`]
/// implementor by the shared componentwise conversion.
pub trait Gyro: GyroRaw {
    /// Get the latest angular rate: the raw sample scaled componentwise by
    /// the implementor's ratio.
    fn angular_rate(&self) -> (r: Result<Vector3, TransportError>)
        ensures
            self.gyro_fetch_ok() ==> r == Ok::<Vector3, TransportError>(
                spec_scale_vec3(
                    self.gyro_next_raw(),
                    self.gyro_ratio_spec().0,
                    self.gyro_ratio_spec().1,
                ),
            ),
            !self.gyro_fetch_ok() ==> r == Err::<Vector3, TransportError>(self.gyro_err()),
    ;
}

impl<X: GyroRaw> Gyro for X {
    fn angular_rate(&self) -> (r: Result<Vector3, TransportError>) {
        let (n, d) = self.angular_rate_lsb_ratio();
        proof {
            self.gyro_ratio_wf();
        }
        match self.angular_rate_raw() {
            Ok(raw) => Ok(scale_vec3(raw, n, d)),
            Err(e) => Err(e),
        }
    }
}

/// The raw accelerometer capability: the scale ratio that turns a raw count
/// into an acceleration, and a fetch of the latest raw three-axis sample.
///
/// The model spec functions play the same role as in [`GyroRaw`]; the fetch
/// takes `&mut self` because reading the device is a bus transaction.
pub trait AccelRaw: Sized {
    /// The implementor's (numerator, denominator) scale ratio.
    spec fn accel_ratio_spec(&self) -> (u16, u16);

    /// Whether the next raw fetch succeeds.
    spec fn accel_fetch_ok(&self) -> bool;

    /// The sample the next successful raw fetch returns.
    spec fn accel_next_raw(&self) -> Vector3;

    /// The error the next raw fetch reports, if it fails.
    spec fn accel_err(&self) -> TransportError;

    /// The ratio has a nonzero denominator and never scales a raw count out
    /// of range; this makes the shared conversion total over fetched samples.
    proof fn accel_ratio_wf(&self)
        ensures
            self.accel_ratio_spec().1 != 0,
            forall|raw: u16|
                #[trigger] spec_scale(raw, self.accel_ratio_spec().0, self.accel_ratio_spec().1)
                    <= u16::MAX,
    ;

    /// Ratio to apply to raw readings to get the acceleration, as
    /// `reading * ratio.0 / ratio.1`.
    fn acceleration_lsb_ratio(&self) -> (r: (u16, u16))
        ensures
            r == self.accel_ratio_spec(),
    ;

    /// Fetch the latest raw acceleration sample. The ratio is unchanged by
    /// the fetch.
    fn acceleration_raw(&mut self) -> (r: Result<Vector3, TransportError>)
        ensures
            final(self).accel_ratio_spec() == old(self).accel_ratio_spec(),
            old(self).accel_fetch_ok() ==> r == Ok::<Vector3, TransportError>(
                old(self).accel_next_raw(),
            ),
            !old(self).accel_fetch_ok() ==> r == Err::<Vector3, TransportError>(
                old(self).accel_err(),
            ),
    ;
}

/// Acceleration in physical units, derived once from any [`AccelRaw`]
/// implementor by the shared componentwise conversion.
pub trait Accel: AccelRaw {
    /// Get the latest acceleration: the raw sample scaled componentwise by
    /// the implementor's ratio.
    fn acceleration(&mut self) -> (r: Result<Vector3, TransportError>)
        ensures
            old(self).accel_fetch_ok() ==> r == Ok::<Vector3, TransportError>(
                spec_scale_vec3(
                    old(self).accel_next_raw(),
                    old(self).accel_ratio_spec().0,
                    old(self).accel_ratio_spec().1,
                ),
            ),
            !old(self).accel_fetch_ok() ==> r == Err::<Vector3, TransportError>(
                old(self).accel_err(),
            ),
    ;
}

impl<X: AccelRaw> Accel for X {
    fn acceleration(&mut self) -> (r: Result<Vector3, TransportError>) {
        let (n, d) = self.acceleration_lsb_ratio();
        proof {
            self.accel_ratio_wf();
        }
        match self.acceleration_raw() {
            Ok(raw) => Ok(scale_vec3(raw, n, d)),
            Err(e) => Err(e),
        }
    }
}

} // verus!
