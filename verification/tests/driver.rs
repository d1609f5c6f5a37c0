use imu_driver::imu::{Accel as AccelCapability, AccelRaw, Gyro as GyroCapability, GyroRaw, Vector3};
use imu_driver::mpu6050::{Config, Driver, Error};
use imu_driver::register::{ReadRegisterI2c, WriteRegisterI2c};
use imu_driver::registers::{Accel, AccelCfg, AccelRange, WhoAmI};
use imu_driver::transport::{Transport, TransportError};

/// A test double for the bus: records committed writes and answers reads
/// from a canned response, or fails every operation with a fixed error.
struct MockBus {
    fail: Option<TransportError>,
    response: Vec<u8>,
    writes: Vec<(u8, Vec<u8>)>,
}

impl MockBus {
    fn answering(response: Vec<u8>) -> MockBus {
        MockBus { fail: None, response, writes: Vec::new() }
    }

    fn failing(code: u32) -> MockBus {
        MockBus { fail: Some(TransportError { code }), response: Vec::new(), writes: Vec::new() }
    }
}

impl Transport for MockBus {
    fn write(&mut self, dev: u8, bytes: &Vec<u8>) -> Result<(), TransportError> {
        match self.fail {
            Some(e) => Err(e),
            None => {
                self.writes.push((dev, bytes.clone()));
                Ok(())
            }
        }
    }

    fn write_read(&mut self, dev: u8, bytes: &Vec<u8>, len: usize) -> Result<Vec<u8>, TransportError> {
        let _ = (dev, bytes);
        match self.fail {
            Some(e) => Err(e),
            None => Ok(self.response[..len].to_vec()),
        }
    }
}

fn plain_config(range: AccelRange) -> Config {
    Config { accel: AccelCfg { test_x: false, test_y: false, test_z: false, range } }
}

#[test]
fn check_whoami_accepts_the_right_device() {
    let bus = MockBus::answering(vec![104]);
    let mut driver = Driver::new(bus, Config::default());
    assert_eq!(driver.check_whoami(), Ok(()));
    assert!(driver.i2c.writes.is_empty());
}

#[test]
fn check_whoami_mismatch_is_not_a_transport_error() {
    let bus = MockBus::answering(vec![105]);
    let mut driver = Driver::new(bus, Config::default());
    assert_eq!(driver.check_whoami(), Err(Error::IdentityMismatch));
}

#[test]
fn check_whoami_propagates_transport_error() {
    let bus = MockBus::failing(3);
    let mut driver = Driver::new(bus, Config::default());
    assert_eq!(
        driver.check_whoami(),
        Err(Error::Transport(TransportError { code: 3 }))
    );
}

#[test]
fn configure_writes_one_whole_frame() {
    let bus = MockBus::answering(Vec::new());
    let cfg = Config {
        accel: AccelCfg {
            test_x: true,
            test_y: false,
            test_z: true,
            range: AccelRange::PlusMinus8G,
        },
    };
    let mut driver = Driver::new(bus, cfg);
    assert_eq!(driver.configure(), Ok(()));
    assert_eq!(driver.i2c.writes, vec![(0x68, vec![0x1C, 0xB0])]);
}

#[test]
fn configure_propagates_transport_error_unmodified() {
    let bus = MockBus::failing(7);
    let mut driver = Driver::new(bus, plain_config(AccelRange::PlusMinus4G));
    assert_eq!(
        driver.configure(),
        Err(Error::Transport(TransportError { code: 7 }))
    );
    assert!(driver.i2c.writes.is_empty());
}

#[test]
fn accel_register_decodes_non_overlapping_ranges() {
    let mut bus = MockBus::answering(vec![0x01, 0x02, 0x03, 0x04, 0x05, 0x06]);
    let sample = Accel::from_i2c(&mut bus, 0x68).unwrap();
    assert_eq!(sample, Accel { x: 0x0102, y: 0x0304, z: 0x0506 });
}

#[test]
fn whoami_register_reads_one_byte() {
    let mut bus = MockBus::answering(vec![104, 99, 99]);
    assert_eq!(WhoAmI::from_i2c(&mut bus, 0x68), Ok(WhoAmI(104)));
}

#[test]
fn accel_cfg_register_round_trips_over_the_wire() {
    let cfg = AccelCfg {
        test_x: false,
        test_y: true,
        test_z: false,
        range: AccelRange::PlusMinus16G,
    };
    let mut bus = MockBus::answering(Vec::new());
    assert_eq!(cfg.to_i2c(&mut bus, 0x68), Ok(()));
    let (dev, frame) = bus.writes[0].clone();
    assert_eq!(dev, 0x68);
    assert_eq!(frame[0], 0x1C);
    let mut reader = MockBus::answering(vec![frame[1]]);
    assert_eq!(AccelCfg::from_i2c(&mut reader, 0x68), Ok(cfg));
}

#[test]
fn acceleration_raw_reads_the_sample_register() {
    // 4000 = 0x0FA0, 2000 = 0x07D0, 6000 = 0x1770
    let bus = MockBus::answering(vec![0x0F, 0xA0, 0x07, 0xD0, 0x17, 0x70]);
    let mut driver = Driver::new(bus, Config::default());
    assert_eq!(
        driver.acceleration_raw(),
        Ok(Vector3 { x: 4000, y: 2000, z: 6000 })
    );
}

#[test]
fn acceleration_scales_each_axis_by_the_ratio() {
    let bus = MockBus::answering(vec![0x0F, 0xA0, 0x07, 0xD0, 0x17, 0x70]);
    let mut driver = Driver::new(bus, Config::default());
    assert_eq!(driver.acceleration(), Ok(Vector3 { x: 2, y: 1, z: 3 }));
}

#[test]
fn acceleration_propagates_transport_error() {
    let bus = MockBus::failing(11);
    let mut driver = Driver::new(bus, Config::default());
    assert_eq!(
        driver.acceleration(),
        Err(TransportError { code: 11 })
    );
}

#[test]
fn accel_ratio_matches_gyro_ratio() {
    let bus = MockBus::answering(Vec::new());
    let driver = Driver::new(bus, Config::default());
    assert_eq!(driver.acceleration_lsb_ratio(), (1, 2000));
    assert_eq!(driver.angular_rate_lsb_ratio(), (1, 2000));
}

#[test]
fn angular_rate_is_zero_until_wired() {
    let bus = MockBus::answering(Vec::new());
    let driver = Driver::new(bus, Config::default());
    assert_eq!(driver.angular_rate(), Ok(Vector3 { x: 0, y: 0, z: 0 }));
}
