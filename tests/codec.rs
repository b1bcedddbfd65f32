use scd30::command::{encode, encode_with_u16_arg, Command};
use scd30::measurement::{be_u32, decode_measurement, decode_word, Measurement};

const ALL: [(Command, [u8; 2]); 11] = [
    (Command::StartContinuousMeasurement, [0x00, 0x10]),
    (Command::StopContinuousMeasurement, [0x01, 0x04]),
    (Command::SetMeasurementInterval, [0x46, 0x00]),
    (Command::GetDataReadyStatus, [0x02, 0x02]),
    (Command::ReadMeasurement, [0x03, 0x00]),
    (Command::SetAutomaticSelfCalibration, [0x53, 0x06]),
    (Command::SetForcedRecalibrationValue, [0x52, 0x04]),
    (Command::SetTemperatureOffset, [0x54, 0x03]),
    (Command::SetAltitude, [0x51, 0x02]),
    (Command::ReadFirmwareVersion, [0xd1, 0x00]),
    (Command::SoftReset, [0xd3, 0x04]),
];

#[test]
fn encode_gives_big_endian_opcode_for_every_command() {
    for (command, bytes) in ALL {
        assert_eq!(encode(command), bytes);
        assert_eq!(command.opcode().to_be_bytes(), bytes);
    }
}

#[test]
fn opcode_values() {
    assert_eq!(Command::SoftReset.opcode(), 0xd304);
    assert_eq!(Command::ReadMeasurement.opcode(), 0x0300);
    assert_eq!(Command::StartContinuousMeasurement.opcode(), 0x0010);
}

#[test]
fn start_measurement_without_pressure() {
    assert_eq!(
        encode_with_u16_arg(Command::StartContinuousMeasurement, 0),
        [0x00, 0x10, 0x00, 0x00]
    );
}

#[test]
fn start_measurement_with_pressure() {
    assert_eq!(
        encode_with_u16_arg(Command::StartContinuousMeasurement, 1013),
        [0x00, 0x10, 0x03, 0xf5]
    );
}

#[test]
fn automatic_calibration_frames() {
    assert_eq!(
        encode_with_u16_arg(Command::SetAutomaticSelfCalibration, 1),
        [0x53, 0x06, 0x00, 0x01]
    );
    assert_eq!(
        encode_with_u16_arg(Command::SetAutomaticSelfCalibration, 0),
        [0x53, 0x06, 0x00, 0x00]
    );
}

#[test]
fn argument_is_big_endian() {
    assert_eq!(encode_with_u16_arg(Command::SetAltitude, 0xabcd), [0x51, 0x02, 0xab, 0xcd]);
    assert_eq!(encode_with_u16_arg(Command::SetMeasurementInterval, 0xffff), [0x46, 0x00, 0xff, 0xff]);
}

#[test]
fn be_u32_value() {
    assert_eq!(be_u32(0x12, 0x34, 0x56, 0x78), 0x1234_5678);
    assert_eq!(be_u32(0xff, 0xff, 0xff, 0xff), u32::MAX);
    assert_eq!(be_u32(0, 0, 0, 0), 0);
}

fn fixture(checks: [u8; 6]) -> [u8; 18] {
    // 400.0 = 0x43c80000, 25.0 = 0x41c80000, 50.0 = 0x42480000
    [
        0x43, 0xc8, checks[0], 0x00, 0x00, checks[1],
        0x41, 0xc8, checks[2], 0x00, 0x00, checks[3],
        0x42, 0x48, checks[4], 0x00, 0x00, checks[5],
    ]
}

#[test]
fn decode_known_fixture() {
    for checks in [[0u8; 6], [0xff; 6], [0x81, 0x17, 0x5a, 0xa5, 0x00, 0x33]] {
        let m = decode_measurement(&fixture(checks));
        assert_eq!(f32::from_bits(m.co2), 400.0);
        assert_eq!(f32::from_bits(m.temperature), 25.0);
        assert_eq!(f32::from_bits(m.humidity), 50.0);
        assert_eq!(
            m,
            Measurement { co2: 0x43c8_0000, temperature: 0x41c8_0000, humidity: 0x4248_0000 }
        );
    }
}

#[test]
fn decode_keeps_field_order() {
    let buf: [u8; 18] = [1, 2, 0, 3, 4, 0, 5, 6, 0, 7, 8, 0, 9, 10, 0, 11, 12, 0];
    let m = decode_measurement(&buf);
    assert_eq!(m.co2, 0x0102_0304);
    assert_eq!(m.temperature, 0x0506_0708);
    assert_eq!(m.humidity, 0x090a_0b0c);
}

#[test]
fn word_round_trip_ignores_check_bytes() {
    let samples: [[u8; 4]; 5] = [
        [0, 0, 0, 0],
        [0x43, 0xc8, 0x00, 0x00],
        [0xde, 0xad, 0xbe, 0xef],
        [0x7f, 0x80, 0x00, 0x01],
        [0xff, 0xff, 0xff, 0xff],
    ];
    for [b0, b1, b2, b3] in samples {
        for (c0, c1) in [(0u8, 0u8), (0xff, 0x01), (0x5a, 0xa5)] {
            let word = [b0, b1, c0, b2, b3, c1];
            let bits = decode_word(&word);
            assert_eq!(bits, u32::from_be_bytes([b0, b1, b2, b3]));
            assert_eq!(
                f32::from_bits(bits).to_bits(),
                f32::from_bits(u32::from_be_bytes([b0, b1, b2, b3])).to_bits()
            );
        }
    }
}
