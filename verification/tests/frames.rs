//! Subframe and frame behaviour: serialization, parsing, builder grouping,
//! merge precedence, and the error paths of the wire format.

use moteus::registers::{
    Fault, Faults, FrameRegisters, Mode, Modes, RegisterAddr, RegisterData, Temperature, Voltage,
};
use moteus::subframe::SubFrame;
use moteus::{Frame, FrameError, FrameParseError, RegisterError, Resolution, ResponseFrame};

/// A write of a scaled physical value at 16-bit resolution, mirroring the
/// fixed-point mapping the device uses: divide by the scale, truncate.
fn write_mapped_i16(addr: RegisterAddr, value: f32, scale: f32) -> RegisterData {
    let scaled = value / scale;
    assert!(scaled <= i16::MAX as f32 && scaled >= i16::MIN as f32);
    let wire = scaled as i16;
    RegisterData {
        address: addr,
        resolution: Resolution::Int16,
        data: Some(wire.to_le_bytes().to_vec()),
    }
}

/// A write of a scaled physical value at 8-bit resolution.
fn write_mapped_i8(addr: RegisterAddr, value: f32, scale: f32) -> RegisterData {
    let scaled = value / scale;
    assert!(scaled <= i8::MAX as f32 && scaled >= i8::MIN as f32);
    let wire = scaled as i8;
    RegisterData {
        address: addr,
        resolution: Resolution::Int8,
        data: Some(vec![wire as u8]),
    }
}

#[test]
fn test_write_u8_subframe() {
    let mut subframe = SubFrame::new(FrameRegisters::WriteInt8, 1);
    subframe
        .add(Mode::write(Modes::Stopped).unwrap())
        .expect("Failed to add register");
    let bytes = subframe
        .as_bytes()
        .expect("Unable to convert frame to bytes");

    assert_eq!(bytes, vec![0x01, 0x00, 0x00]);
}

#[test]
fn test_empty_subframe() {
    let subframe = SubFrame::new(FrameRegisters::WriteInt8, 1);
    assert!(subframe.as_bytes().is_err());
    assert!(matches!(
        subframe.as_bytes(),
        Err(FrameError::EmptySubFrame)
    ));
}

#[test]
fn test_write_u16_subframe() {
    let mut subframe: SubFrame = SubFrame::new(FrameRegisters::WriteInt16, 3);
    subframe
        .add(write_mapped_i16(RegisterAddr::CommandPosition, 2.0, 0.0001))
        .expect("Failed to add register");
    subframe
        .add(write_mapped_i16(RegisterAddr::CommandVelocity, 2.0, 0.00025))
        .expect("Failed to add register");
    subframe
        .add(write_mapped_i16(
            RegisterAddr::CommandFeedforwardTorque,
            2.0,
            0.01,
        ))
        .expect("Failed to add register");

    let bytes = subframe
        .as_bytes()
        .expect("Failed to convert subframe to bytes");
    assert_eq!(bytes, vec![0x07, 0x20, 32, 78, 63, 31, 200, 0]);
}

#[test]
fn test_read_u8_subframe() {
    let mut subframe = SubFrame::new(FrameRegisters::ReadInt8, 3);
    subframe
        .add(Voltage::read())
        .expect("Failed to add register");
    let bytes = subframe
        .as_bytes()
        .expect("Unable to convert frame to bytes");

    assert_eq!(bytes, vec![0x13, 0x0d]);
}

#[test]
fn test_read_u16_subframe() {
    let mut subframe = SubFrame::new(FrameRegisters::ReadInt16, 4);
    subframe
        .add(Mode::read_with_resolution(Resolution::Int16))
        .expect("Failed to add register");
    let bytes = subframe
        .as_bytes()
        .expect("Unable to convert frame to bytes");

    assert_eq!(bytes, vec![0x14, 0x04, 0x00]);
}

#[test]
fn test_read_u32_subframe() {
    let mut subframe = SubFrame::new(FrameRegisters::ReadInt32, 5);
    subframe
        .add(moteus::registers::MillisecondCounter::read())
        .expect("Failed to add register");
    let bytes = subframe
        .as_bytes()
        .expect("Unable to convert frame to bytes");

    assert_eq!(bytes, vec![0x18, 0x05, 0x70]);
}

#[test]
fn test_nonsequential_registers_rejected() {
    let mut subframe = SubFrame::new(FrameRegisters::ReadInt8, 2);
    subframe.add(Voltage::read()).unwrap();
    // Fault sits at 0x00f; Voltage at 0x00d — the gap is rejected.
    assert!(matches!(
        subframe.add(Fault::read()),
        Err(FrameError::NonSequentialRegisters)
    ));
    // Temperature at 0x00e continues the run.
    subframe.add(Temperature::read()).unwrap();
}

#[test]
fn test_mixed_read_writes_rejected() {
    let mut subframe = SubFrame::new(FrameRegisters::WriteInt8, 2);
    subframe.add(Mode::write(Modes::Stopped).unwrap()).unwrap();
    // A read request right after a write at the next address is rejected.
    let read_position = RegisterData::read(RegisterAddr::Position, Resolution::Int8);
    assert!(matches!(
        subframe.add(read_position),
        Err(FrameError::MixedReadWrites)
    ));
}

#[test]
fn parse_u8_subframe() {
    let buf = vec![0x23, 0x0d, 0x18, 0x14, 0x00];
    let (subframe, _) = SubFrame::from_bytes(&buf).expect("Failed to parse subframe");
    let subframe = subframe.expect("Failed to parse subframe");
    assert_eq!(subframe.register, FrameRegisters::ReplyInt8);
    assert_eq!(subframe.len, 3);
    assert_eq!(
        subframe.data,
        vec![
            write_mapped_i8(RegisterAddr::Voltage, 12.0, 0.5),
            write_mapped_i8(RegisterAddr::Temperature, 20.0, 1.0),
            Fault::write(Faults::Success).unwrap(),
        ]
    );
}

#[test]
fn parse_u16_subframe() {
    let buf = vec![0x24, 0x04, 0x00, 0x0a, 0x00, 100, 0x00, 144, 0x01, 192, 199];
    let (subframe, _) = SubFrame::from_bytes(&buf).expect("Failed to parse subframe");
    let subframe = subframe.expect("Failed to parse subframe");
    assert_eq!(subframe.register, FrameRegisters::ReplyInt16);
    assert_eq!(subframe.len, 4);
    assert_eq!(
        subframe.data,
        vec![
            Mode::write_with_resolution(Modes::Position, Resolution::Int16).unwrap(),
            write_mapped_i16(RegisterAddr::Position, 0.01, 0.0001),
            write_mapped_i16(RegisterAddr::Velocity, 0.1, 0.00025),
            write_mapped_i16(RegisterAddr::Torque, -144.0, 0.01),
        ]
    );
}

#[test]
fn parse_response_frame() {
    let buf = vec![
        0x01, 0x00, 0x0a, 0x0d, 0x20, 0x00, 0x00, 0x80, 0x3f, 0x50, 0x50, 0x50,
    ];
    let frame = ResponseFrame::from_bytes(&buf).expect("Failed to parse response frame");
    let mode = frame.get(RegisterAddr::Mode).unwrap();
    assert_eq!(
        Mode::from_bytes(mode.data.as_ref().unwrap(), mode.resolution).unwrap(),
        Modes::Position
    );
    let pos = frame.get(RegisterAddr::CommandPosition).unwrap();
    assert_eq!(pos.resolution, Resolution::Float);
    let bytes = pos.data.as_ref().unwrap();
    let value = f32::from_le_bytes([bytes[0], bytes[1], bytes[2], bytes[3]]);
    assert_eq!(value, 1.0);
}

#[test]
fn multi_subframes_into_bytes() {
    let mut builder = Frame::builder();

    builder
        .try_add_many(vec![
            Ok(write_mapped_i16(RegisterAddr::CommandPosition, 1.0, 0.0001)),
            Ok(write_mapped_i16(RegisterAddr::CommandVelocity, 0.0, 0.00025)),
            Ok(write_mapped_i16(
                RegisterAddr::CommandFeedforwardTorque,
                -2.0,
                0.01,
            )),
            Ok(Voltage::read_with_resolution(Resolution::Int8)),
            Ok(Temperature::read_with_resolution(Resolution::Int8)),
            Ok(Fault::read_with_resolution(Resolution::Int8)),
        ])
        .unwrap();
    let frame = builder.build();
    let bytes = frame.as_bytes().expect("Unable to convert frame to bytes");
    assert_eq!(bytes, vec![0x07, 0x20, 16, 39, 0, 0, 56, 255, 19, 13]);
}

#[test]
fn test_query_parse() {
    // One recorded response frame: a write of the mode, two float command
    // writes, three read requests, and trailing padding.
    let buf = vec![
        0x01, 0x00, 0x0A, // WriteInt8, count 1, addr 0x00, payload 0x0A
        0x0E, 0x20, 0x00, 0x00, 0x00, 0xBF, 0x00, 0x00, 0x00, 0x00, // WriteF32 x2 @ 0x20
        0x0E, 0x28, 0x00, 0x00, 0x00, 0x41, 0x00, 0x00, 0x40, 0x40, // WriteF32 x2 @ 0x28
        0x11, 0x00, // ReadInt8, count 1, addr 0x00
        0x13, 0x0D, // ReadInt8, count 3, addr 0x0D
        0x1F, 0x01, // ReadF32, count 3, addr 0x01
        0x1C, 0x06, 0x38, // ReadF32, count byte 6, addr 0x38
        0x50, 0x50, 0x50, // padding
    ];
    let frame = ResponseFrame::from_bytes(&buf).unwrap();
    // Only the write subframes carry registers.
    assert_eq!(frame.registers.len(), 5);
    assert!(frame.get(RegisterAddr::Mode).is_some());
    assert!(frame.get(RegisterAddr::CommandPosition).is_some());
    assert!(frame.get(RegisterAddr::VelocityLimit).is_some());
}

#[test]
fn test_subframe_contiguity_split() {
    // Registers at 0x20, 0x21 and 0x23 share a resolution and direction:
    // the gap at 0x22 splits them into two subframes of lengths 2 and 1.
    let mut builder = Frame::builder();
    builder.add(RegisterData::read(
        RegisterAddr::CommandPosition,
        Resolution::Int16,
    ));
    builder.add(RegisterData::read(
        RegisterAddr::CommandVelocity,
        Resolution::Int16,
    ));
    builder.add(RegisterData::read(
        RegisterAddr::CommandKpScale,
        Resolution::Int16,
    ));
    let frame = builder.build();
    assert_eq!(frame.subframes.len(), 2);
    assert_eq!(frame.subframes[0].len, 2);
    assert_eq!(frame.subframes[0].data.len(), 2);
    assert_eq!(frame.subframes[1].len, 1);
    assert_eq!(frame.subframes[1].data.len(), 1);
}

#[test]
fn test_merge_precedence() {
    // builder_a holds regX=1, builder_b holds regX=2: after
    // a.merge(b) the value at regX is 2 — the merge argument wins.
    let mut builder_a = Frame::builder();
    builder_a.add(RegisterData::write_int(RegisterAddr::Rezero, 1, Resolution::Int8).unwrap());
    let mut builder_b = Frame::builder();
    builder_b.add(RegisterData::write_int(RegisterAddr::Rezero, 2, Resolution::Int8).unwrap());
    let merged = builder_a.merge(builder_b);
    let frame = merged.build();
    assert_eq!(frame.subframes.len(), 1);
    assert_eq!(frame.subframes[0].data[0].data, Some(vec![2]));
}

#[test]
fn test_last_write_wins() {
    let mut builder = Frame::builder();
    builder.add(RegisterData::write_int(RegisterAddr::Rezero, 1, Resolution::Int8).unwrap());
    builder.add(RegisterData::write_int(RegisterAddr::Rezero, 2, Resolution::Int8).unwrap());
    let frame = builder.build();
    assert_eq!(frame.subframes.len(), 1);
    assert_eq!(frame.subframes[0].data[0].data, Some(vec![2]));
}

#[test]
fn test_unknown_kind_rejected() {
    // 0x34's top six bits match no kind: the offending header byte comes
    // back in the error.
    let buf = vec![0x34, 0x01, 0x00];
    assert!(matches!(
        SubFrame::from_bytes(&buf),
        Err(FrameParseError::InvalidFrameRegister(0x34))
    ));
    // The error carries the header byte itself, count bits included.
    let buf = vec![0x47];
    assert!(matches!(
        SubFrame::from_bytes(&buf),
        Err(FrameParseError::InvalidFrameRegister(0x47))
    ));
}

#[test]
fn test_unsupported_kind_rejected() {
    let buf = vec![0x30, 0x01, 0x00];
    assert!(matches!(
        SubFrame::from_bytes(&buf),
        Err(FrameParseError::UnsupportedSubframeRegister(
            FrameRegisters::WriteError
        ))
    ));
}

#[test]
fn test_nop_padding_skipped() {
    let buf = vec![0x50];
    let (sf, n) = SubFrame::from_bytes(&buf).unwrap();
    assert!(sf.is_none());
    assert_eq!(n, 1);
    let empty: Vec<u8> = vec![];
    let (sf, n) = SubFrame::from_bytes(&empty).unwrap();
    assert!(sf.is_none());
    assert_eq!(n, 0);
}

#[test]
fn test_invalid_address_in_reply() {
    // 0x007 names no register: the reply is rejected.
    let buf = vec![0x21, 0x07, 0x00];
    assert!(matches!(
        SubFrame::from_bytes(&buf),
        Err(FrameParseError::RegisterError(
            RegisterError::InvalidAddress
        ))
    ));
}

#[test]
fn test_truncated_reply_rejected() {
    // ReplyInt32, count 2, addr 0x70, but only five payload bytes follow.
    let buf = vec![0x2A, 0x70, 1, 2, 3, 4, 5];
    assert!(matches!(
        SubFrame::from_bytes(&buf),
        Err(FrameParseError::RegisterError(RegisterError::Io))
    ));
}

#[test]
fn test_multibyte_address_parse() {
    // ReplyInt32 at address 0x120 (varint A0 02): the general varint
    // decoder reads past one byte.
    let buf = vec![0x29, 0xA0, 0x02, 0xEF, 0xBE, 0xAD, 0xDE];
    let (sf, n) = SubFrame::from_bytes(&buf).unwrap();
    let sf = sf.unwrap();
    assert_eq!(n, 7);
    assert_eq!(sf.data[0].address, RegisterAddr::SerialNumber);
    assert_eq!(sf.data[0].data, Some(vec![0xEF, 0xBE, 0xAD, 0xDE]));
}

#[test]
fn test_try_add_many_first_error_wins() {
    let mut builder = Frame::builder();
    let r = builder.try_add_many(vec![
        Ok(Voltage::read()),
        Err(RegisterError::Overflow),
        Err(RegisterError::InvalidData),
    ]);
    assert!(matches!(r, Err(RegisterError::Overflow)));
    // Nothing was added.
    let frame = builder.build();
    assert_eq!(frame.subframes.len(), 0);
}

#[test]
fn test_with_builder() {
    let builder = Frame::with_builder(vec![
        Voltage::read_with_resolution(Resolution::Int8),
        Temperature::read_with_resolution(Resolution::Int8),
    ]);
    let bytes = builder.build().as_bytes().unwrap();
    assert_eq!(bytes, vec![0x12, 0x0d]);
}

#[test]
fn test_missing_count_byte_rejected() {
    // A zero count field announces a count byte that never arrives.
    let buf = vec![0x04];
    assert!(matches!(
        SubFrame::from_bytes(&buf),
        Err(FrameParseError::RegisterError(RegisterError::Io))
    ));
}

#[test]
fn test_overlong_varint_address_rejected() {
    // Five continuation bytes exceed what any register address can need.
    let buf = vec![0x21, 0x80, 0x80, 0x80, 0x80, 0x80, 0x01, 0x00];
    assert!(matches!(
        SubFrame::from_bytes(&buf),
        Err(FrameParseError::RegisterError(
            RegisterError::InvalidAddress
        ))
    ));
}

#[test]
fn test_truncated_varint_address_rejected() {
    // The continuation bit promises another byte that never arrives.
    let buf = vec![0x21, 0x80];
    assert!(matches!(
        SubFrame::from_bytes(&buf),
        Err(FrameParseError::RegisterError(RegisterError::Io))
    ));
}

#[test]
fn test_out_of_range_varint_address_rejected() {
    // 0x10000 decodes fine as a varint but exceeds the address domain.
    let buf = vec![0x21, 0x80, 0x80, 0x04, 0x00];
    assert!(matches!(
        SubFrame::from_bytes(&buf),
        Err(FrameParseError::RegisterError(
            RegisterError::InvalidAddress
        ))
    ));
}
