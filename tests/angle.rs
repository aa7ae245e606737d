use scl3300_tiltsensor::angle::{angle_conversion, decode_angle, encode_angle, AngleSample};
use scl3300_tiltsensor::checksum::stamp;

#[test]
fn decode_boundaries() {
    assert_eq!(decode_angle(0), 0);
    assert_eq!(decode_angle(16384), 9000);
    let wrapped = decode_angle(32768);
    assert!(wrapped < 0);
    assert_eq!(wrapped, -18000);
    let top = decode_angle(65535);
    assert!(-9000 < top && top < 0);
    assert_eq!(top, -1);
}

#[test]
fn decode_rounds_half_up_to_hundredths() {
    // 1024 / 2^14 * 90 = 5.625 degrees
    assert_eq!(decode_angle(1024), 563);
    // 1 / 2^14 * 90 = 0.0055 degrees
    assert_eq!(decode_angle(1), 1);
    // 8192 / 2^14 * 90 = 45 degrees
    assert_eq!(decode_angle(8192), 4500);
}

#[test]
fn decode_wraps_above_ninety_degrees() {
    // 16385 / 2^14 * 90 = 90.0055, which rounds to 90.01 and wraps
    assert_eq!(decode_angle(16385), 9001 - 36000);
    // 49152 / 2^14 * 90 = 270 degrees, i.e. -90
    assert_eq!(decode_angle(49152), -9000);
}

#[test]
fn encode_then_decode_recovers_every_hundredth() {
    for a in -9000..9000 {
        assert_eq!(decode_angle(encode_angle(a)), a, "angle {}", a);
    }
}

#[test]
fn encode_values() {
    assert_eq!(encode_angle(0), 0);
    assert_eq!(encode_angle(4500), 8192);
    assert_eq!(encode_angle(-9000), 49152);
    assert_eq!(encode_angle(-1), 65534);
}

#[test]
fn angle_conversion_reads_payload_little_endian() {
    // payload bytes 1 and 2: 0x00, 0x40 -> raw 0x4000 = 16384
    let f = stamp(0x24, 0x00, 0x40);
    assert_eq!(angle_conversion(&f), 9000);
    let g = stamp(0x24, 0x00, 0x20);
    assert_eq!(angle_conversion(&g), 4500);
    let h = stamp(0x24, 0xFF, 0xFF);
    assert_eq!(angle_conversion(&h), -1);
}

#[test]
fn sample_holds_its_axes() {
    let s = AngleSample::new(1, -2, 3);
    assert_eq!((s.x, s.y, s.z), (1, -2, 3));
}
