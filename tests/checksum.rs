use scl3300_tiltsensor::checksum::{bytes_to_u32, calculate_crc, compute, crc8, stamp, validate};
use scl3300_tiltsensor::command::Command;

const ALL_COMMANDS: [Command; 10] = [
    Command::WakeUp,
    Command::SwitchBank0,
    Command::SoftwareReset,
    Command::SetMode1,
    Command::EnableAngles,
    Command::ReadStatus,
    Command::ReadIdentity,
    Command::ReadAngleX,
    Command::ReadAngleY,
    Command::ReadAngleZ,
];

#[test]
fn every_command_frame_validates() {
    for c in ALL_COMMANDS {
        assert!(validate(&c.bytes()), "{:?}", c);
    }
}

#[test]
fn command_bytes_are_the_wire_literals() {
    assert_eq!(Command::WakeUp.bytes(), [0xB4, 0x00, 0x00, 0x1F]);
    assert_eq!(Command::SetMode1.bytes(), [0xB4, 0x00, 0x00, 0x1F]);
    assert_eq!(Command::SwitchBank0.bytes(), [0xFC, 0x00, 0x00, 0x73]);
    assert_eq!(Command::SoftwareReset.bytes(), [0xB4, 0x00, 0x20, 0x98]);
    assert_eq!(Command::EnableAngles.bytes(), [0xB0, 0x00, 0x1F, 0x6F]);
    assert_eq!(Command::ReadStatus.bytes(), [0x18, 0x00, 0x00, 0xE5]);
    assert_eq!(Command::ReadIdentity.bytes(), [0x40, 0x00, 0x00, 0x91]);
    assert_eq!(Command::ReadAngleX.bytes(), [0x24, 0x00, 0x00, 0xC7]);
    assert_eq!(Command::ReadAngleY.bytes(), [0x28, 0x00, 0x00, 0xCD]);
    assert_eq!(Command::ReadAngleZ.bytes(), [0x2C, 0x00, 0x00, 0xCB]);
}

#[test]
fn compute_gives_the_same_byte_twice() {
    for (b0, b1, b2) in [(0xB4u8, 0x00u8, 0x20u8), (0x00, 0x00, 0x00), (0xFF, 0xFF, 0xFF), (0x12, 0x34, 0x56)] {
        assert_eq!(compute(b0, b1, b2), compute(b0, b1, b2));
    }
    assert_eq!(compute(0xB4, 0x00, 0x20), 0x98);
    assert_eq!(compute(0x2C, 0x00, 0x00), 0xCB);
}

#[test]
fn any_single_bit_flip_fails_validation() {
    for c in ALL_COMMANDS {
        let frame = c.bytes();
        for i in 0..3 {
            for j in 0..8 {
                let mut flipped = frame;
                flipped[i] ^= 1u8 << j;
                assert!(!validate(&flipped), "{:?} byte {} bit {}", c, i, j);
                assert_ne!(compute(flipped[0], flipped[1], flipped[2]), frame[3]);
            }
        }
    }
}

#[test]
fn wrong_checksum_byte_fails_validation() {
    assert!(!validate(&[0xB4, 0x00, 0x00, 0x1E]));
    assert!(!validate(&[0x00, 0x00, 0x00, 0x00]));
}

#[test]
fn calculate_crc_reads_bits_31_to_8() {
    assert_eq!(calculate_crc(0xB400_0000), 0x1F);
    assert_eq!(calculate_crc(0xB400_001F), 0x1F);
    assert_eq!(calculate_crc(0xB400_2000), 0x98);
    assert_eq!(calculate_crc(0x4000_00FF), 0x91);
}

#[test]
fn crc8_single_steps() {
    assert_eq!(crc8(1, 0x00), 0x1D);
    assert_eq!(crc8(0, 0x80), 0x1D);
    assert_eq!(crc8(1, 0x80), 0x00);
    assert_eq!(crc8(0, 0x01), 0x02);
    assert_eq!(crc8(0, 0x00), 0x00);
    assert_eq!(crc8(1, 0x7F), 0xE3);
}

#[test]
fn bytes_to_u32_is_big_endian() {
    assert_eq!(bytes_to_u32(&[]), 0);
    assert_eq!(bytes_to_u32(&[0xAB]), 0xAB);
    assert_eq!(bytes_to_u32(&[0xB4, 0x00, 0x20, 0x98]), 0xB400_2098);
    assert_eq!(bytes_to_u32(&[0x01, 0x02, 0x03, 0x04, 0x05]), 0x0203_0405);
}

#[test]
fn stamp_appends_the_checksum() {
    assert_eq!(stamp(0xB0, 0x00, 0x1F), [0xB0, 0x00, 0x1F, 0x6F]);
    let f = stamp(0x41, 0x12, 0x34);
    assert!(validate(&f));
    assert_eq!(f[3], compute(0x41, 0x12, 0x34));
}
