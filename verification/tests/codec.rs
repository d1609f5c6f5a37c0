use imu_driver::imu::{scale, scale_vec3, Vector3};
use imu_driver::mpu6050::{identity_verdict, Error};
use imu_driver::registers::{be_u16, AccelCfg, AccelRange, WhoAmI};

#[test]
fn range_decode_defined() {
    assert_eq!(AccelRange::new(0), AccelRange::PlusMinus2G);
    assert_eq!(AccelRange::new(1), AccelRange::PlusMinus4G);
    assert_eq!(AccelRange::new(2), AccelRange::PlusMinus8G);
    assert_eq!(AccelRange::new(3), AccelRange::PlusMinus16G);
}

#[test]
fn range_decode_malformed_is_unknown() {
    assert_eq!(AccelRange::new(4), AccelRange::Unknown);
    assert_eq!(AccelRange::new(7), AccelRange::Unknown);
    assert_eq!(AccelRange::new(255), AccelRange::Unknown);
}

#[test]
fn range_bits_of_defined() {
    assert_eq!(AccelRange::PlusMinus2G.bits(), 0);
    assert_eq!(AccelRange::PlusMinus4G.bits(), 1);
    assert_eq!(AccelRange::PlusMinus8G.bits(), 2);
    assert_eq!(AccelRange::PlusMinus16G.bits(), 3);
}

#[test]
fn range_default_is_16g() {
    assert_eq!(AccelRange::default(), AccelRange::PlusMinus16G);
}

#[test]
fn cfg_encode_exact_bytes() {
    let none = AccelCfg {
        test_x: false,
        test_y: false,
        test_z: false,
        range: AccelRange::PlusMinus2G,
    };
    assert_eq!(none.encode_byte(), 0x00);

    let mixed = AccelCfg {
        test_x: true,
        test_y: false,
        test_z: true,
        range: AccelRange::PlusMinus8G,
    };
    assert_eq!(mixed.encode_byte(), 0xB0);

    let all = AccelCfg {
        test_x: true,
        test_y: true,
        test_z: true,
        range: AccelRange::PlusMinus16G,
    };
    assert_eq!(all.encode_byte(), 0xF8);
}

#[test]
fn cfg_decode_range_field() {
    assert_eq!(AccelCfg::decode_byte(0x00).range, AccelRange::PlusMinus2G);
    assert_eq!(AccelCfg::decode_byte(0x08).range, AccelRange::PlusMinus4G);
    assert_eq!(AccelCfg::decode_byte(0x10).range, AccelRange::PlusMinus8G);
    assert_eq!(AccelCfg::decode_byte(0x18).range, AccelRange::PlusMinus16G);
}

#[test]
fn cfg_decode_flags() {
    let c = AccelCfg::decode_byte(0xA0);
    assert!(c.test_x);
    assert!(!c.test_y);
    assert!(c.test_z);
    assert_eq!(c.range, AccelRange::PlusMinus2G);
}

#[test]
fn cfg_decode_ignores_reserved_bits() {
    let c = AccelCfg::decode_byte(0x07);
    assert_eq!(
        c,
        AccelCfg { test_x: false, test_y: false, test_z: false, range: AccelRange::PlusMinus2G }
    );
}

#[test]
fn cfg_round_trip_all_representable() {
    let ranges = [
        AccelRange::PlusMinus2G,
        AccelRange::PlusMinus4G,
        AccelRange::PlusMinus8G,
        AccelRange::PlusMinus16G,
    ];
    for &range in &ranges {
        for bits in 0u8..8 {
            let v = AccelCfg {
                test_x: bits & 4 != 0,
                test_y: bits & 2 != 0,
                test_z: bits & 1 != 0,
                range,
            };
            assert_eq!(AccelCfg::decode_byte(v.encode_byte()), v);
        }
    }
}

#[test]
fn cfg_default_is_plain_16g() {
    assert_eq!(
        AccelCfg::default(),
        AccelCfg { test_x: false, test_y: false, test_z: false, range: AccelRange::PlusMinus16G }
    );
}

#[test]
fn be_u16_combines_big_endian() {
    assert_eq!(be_u16(0x01, 0x02), 0x0102);
    assert_eq!(be_u16(0x00, 0xFF), 0x00FF);
    assert_eq!(be_u16(0xFF, 0x00), 0xFF00);
    assert_eq!(be_u16(0xFF, 0xFF), 0xFFFF);
}

#[test]
fn whoami_default_is_expected_constant() {
    assert_eq!(WhoAmI::default(), WhoAmI(104));
}

#[test]
fn identity_verdict_matches_only_expected() {
    assert_eq!(identity_verdict(WhoAmI(104)), Ok(()));
    assert_eq!(identity_verdict(WhoAmI(105)), Err(Error::IdentityMismatch));
    assert_eq!(identity_verdict(WhoAmI(0)), Err(Error::IdentityMismatch));
    assert_eq!(identity_verdict(WhoAmI(255)), Err(Error::IdentityMismatch));
}

#[test]
fn scale_is_raw_times_n_over_d() {
    assert_eq!(scale(4000, 1, 2000), 2);
    assert_eq!(scale(100, 1, 2000), 0);
    assert_eq!(scale(1000, 3, 2), 1500);
    assert_eq!(scale(65535, 1, 1), 65535);
    assert_eq!(scale(0, 999, 7), 0);
}

#[test]
fn scale_vec3_is_componentwise() {
    let v = Vector3 { x: 4000, y: 2000, z: 6000 };
    let s = scale_vec3(v, 1, 2000);
    assert_eq!(s, Vector3 { x: 2, y: 1, z: 3 });

    let w = Vector3 { x: 10, y: 20, z: 30 };
    let t = scale_vec3(w, 5, 2);
    assert_eq!(t, Vector3 { x: 25, y: 50, z: 75 });
}

#[test]
fn cfg_decode_every_byte_gives_defined_range() {
    for b in 0u8..=255 {
        let c = AccelCfg::decode_byte(b);
        assert_ne!(c.range, AccelRange::Unknown);
    }
}

#[test]
fn cfg_encode_keeps_reserved_bits_zero() {
    let all = AccelCfg {
        test_x: true,
        test_y: true,
        test_z: true,
        range: AccelRange::PlusMinus16G,
    };
    assert_eq!(all.encode_byte() & 0x07, 0);
    assert_eq!(AccelCfg::default().encode_byte() & 0x07, 0);
}
