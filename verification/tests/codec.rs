//! Register codec behaviour: integer and enum encodings across the wire
//! resolutions, round trips, overflow boundaries, and varint addresses.

use moteus::bytes::varint_push;
use moteus::registers::{
    Fault, Faults, HomeState, HomeStates, MillisecondCounter, Mode, Modes, RegisterAddr,
    RegisterData,
};
use moteus::{RegisterError, Resolution};

#[test]
fn test_u8_register() {
    let data = Mode::write_with_resolution(Modes::Voltage, Resolution::Int8)
        .unwrap()
        .data
        .unwrap();
    assert_eq!(data, vec![6]);
    let data2 = Mode::from_bytes(&data, Resolution::Int8).unwrap();
    assert_eq!(data2, Modes::Voltage);
    let data = Mode::write_with_resolution(Modes::Voltage, Resolution::Int16)
        .unwrap()
        .data
        .unwrap();
    assert_eq!(data, [6, 0].to_vec());
    let data = Mode::write_with_resolution(Modes::Voltage, Resolution::Int32)
        .unwrap()
        .data
        .unwrap();
    assert_eq!(data, [6, 0, 0, 0].to_vec());
    let data = Mode::write_with_resolution(Modes::Voltage, Resolution::Float);
    assert!(data.is_err()); // IntAsFloat
}

#[test]
fn test_i32_register() {
    let data = MillisecondCounter::write_with_resolution(1, Resolution::Int8)
        .unwrap()
        .data
        .unwrap();
    assert_eq!(data, vec![1]);
    let data = MillisecondCounter::write_with_resolution(1, Resolution::Int16)
        .unwrap()
        .data
        .unwrap();
    assert_eq!(data, vec![1, 0]);
    let data = MillisecondCounter::write_with_resolution(1, Resolution::Int32)
        .unwrap()
        .data
        .unwrap();
    assert_eq!(data, vec![1, 0, 0, 0]);
    let data = MillisecondCounter::write_with_resolution(1, Resolution::Float);
    assert!(data.is_err());

    let data = MillisecondCounter::write_with_resolution(200, Resolution::Int8);
    assert!(data.is_err());
}

#[test]
fn test_int_overflow_boundary() {
    // Exactly at the boundary succeeds; one unit past fails.
    assert!(MillisecondCounter::write_with_resolution(127, Resolution::Int8).is_ok());
    assert!(matches!(
        MillisecondCounter::write_with_resolution(128, Resolution::Int8),
        Err(RegisterError::Overflow)
    ));
    assert!(MillisecondCounter::write_with_resolution(-128, Resolution::Int8).is_ok());
    assert!(matches!(
        MillisecondCounter::write_with_resolution(-129, Resolution::Int8),
        Err(RegisterError::Overflow)
    ));
    assert!(MillisecondCounter::write_with_resolution(32767, Resolution::Int16).is_ok());
    assert!(matches!(
        MillisecondCounter::write_with_resolution(32768, Resolution::Int16),
        Err(RegisterError::Overflow)
    ));
    assert!(MillisecondCounter::write_with_resolution(-32768, Resolution::Int16).is_ok());
    assert!(matches!(
        MillisecondCounter::write_with_resolution(-32769, Resolution::Int16),
        Err(RegisterError::Overflow)
    ));
}

#[test]
fn test_int_round_trip_negative() {
    // Negative values survive the trip at every integer resolution.
    for v in [-1i32, -5, -128, -32768, -2000000] {
        for res in [Resolution::Int8, Resolution::Int16, Resolution::Int32] {
            let encoded = MillisecondCounter::write_with_resolution(v, res);
            match encoded {
                Ok(rd) => {
                    let bytes = rd.data.unwrap();
                    let back = MillisecondCounter::from_bytes(&bytes, res).unwrap();
                    assert_eq!(back, v);
                }
                Err(RegisterError::Overflow) => {}
                Err(e) => panic!("unexpected error {:?}", e),
            }
        }
    }
}

#[test]
fn test_enum_round_trip() {
    for res in [Resolution::Int8, Resolution::Int16, Resolution::Int32] {
        let bytes = Mode::write_with_resolution(Modes::Brake, res)
            .unwrap()
            .data
            .unwrap();
        assert_eq!(Mode::from_bytes(&bytes, res).unwrap(), Modes::Brake);

        let bytes = Fault::write_with_resolution(Faults::TimingViolation, res)
            .unwrap()
            .data
            .unwrap();
        assert_eq!(Fault::from_bytes(&bytes, res).unwrap(), Faults::TimingViolation);

        let bytes = HomeState::write_with_resolution(HomeStates::Output, res)
            .unwrap()
            .data
            .unwrap();
        assert_eq!(
            HomeState::from_bytes(&bytes, res).unwrap(),
            HomeStates::Output
        );
    }
}

#[test]
fn test_enum_invalid_data() {
    let bytes = vec![200u8];
    assert!(matches!(
        Mode::from_bytes(&bytes, Resolution::Int8),
        Err(RegisterError::InvalidData)
    ));
    let bytes = vec![47u8];
    assert!(matches!(
        Fault::from_bytes(&bytes, Resolution::Int8),
        Err(RegisterError::InvalidData)
    ));
    let bytes = vec![3u8];
    assert!(matches!(
        HomeState::from_bytes(&bytes, Resolution::Int8),
        Err(RegisterError::InvalidData)
    ));
}

#[test]
fn test_short_buffer_rejected() {
    let empty: Vec<u8> = vec![];
    assert!(matches!(
        Mode::from_bytes(&empty, Resolution::Int8),
        Err(RegisterError::Io)
    ));
    let one = vec![1u8];
    assert!(matches!(
        MillisecondCounter::from_bytes(&one, Resolution::Int16),
        Err(RegisterError::Io)
    ));
    assert!(matches!(
        MillisecondCounter::from_bytes(&one, Resolution::Int32),
        Err(RegisterError::Io)
    ));
}

#[test]
fn test_int_decode_at_float_rejected() {
    let four = vec![0u8, 0, 0, 64];
    assert!(matches!(
        MillisecondCounter::from_bytes(&four, Resolution::Float),
        Err(RegisterError::IntAsFloat)
    ));
    assert!(matches!(
        Mode::from_bytes(&four, Resolution::Float),
        Err(RegisterError::IntAsFloat)
    ));
}

#[test]
fn test_varint_address_encoding() {
    // Address 0 encodes as a single zero byte.
    assert_eq!(RegisterAddr::Mode.address_as_bytes(), vec![0x00]);
    // Address 200 needs two bytes, the first with the continuation bit.
    let mut buf: Vec<u8> = Vec::new();
    varint_push(&mut buf, 200);
    assert_eq!(buf, vec![0xC8, 0x01]);
    assert!(buf[0] & 0x80 != 0);
    // A real two-byte register address.
    assert_eq!(RegisterAddr::SerialNumber.address_as_bytes(), vec![0xA0, 0x02]);
    // One-byte addresses near the boundary stay one byte.
    assert_eq!(RegisterAddr::MillisecondCounter.address_as_bytes(), vec![0x70]);
}

#[test]
fn test_register_data_constructors() {
    let rd = RegisterData::read(RegisterAddr::Voltage, Resolution::Int8);
    assert_eq!(rd.address, RegisterAddr::Voltage);
    assert_eq!(rd.resolution, Resolution::Int8);
    assert!(rd.data.is_none());

    let rd = RegisterData::write_int(RegisterAddr::Rezero, 1, Resolution::Int8).unwrap();
    assert_eq!(rd.data, Some(vec![1]));

    let rd = RegisterData::write_uint(RegisterAddr::SerialNumber, 0xDEADBEEF, Resolution::Int32)
        .unwrap();
    assert_eq!(rd.data, Some(vec![0xEF, 0xBE, 0xAD, 0xDE]));
    assert!(matches!(
        RegisterData::write_uint(RegisterAddr::SerialNumber, 128, Resolution::Int8),
        Err(RegisterError::Overflow)
    ));

    let rd = RegisterData::from_bytes(0x00D, &[24u8], Resolution::Int8).unwrap();
    assert_eq!(rd.address, RegisterAddr::Voltage);
    assert_eq!(rd.data, Some(vec![24]));
    assert!(matches!(
        RegisterData::from_bytes(0x007, &[0u8], Resolution::Int8),
        Err(RegisterError::InvalidAddress)
    ));

    let rd = RegisterData::write_int(RegisterAddr::MillisecondCounter, -5, Resolution::Int16)
        .unwrap();
    assert_eq!(rd.as_int().unwrap(), -5);
    let rd = RegisterData::read(RegisterAddr::MillisecondCounter, Resolution::Int16);
    assert!(matches!(rd.as_int(), Err(RegisterError::NoData)));
}
