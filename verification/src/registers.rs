//! The register data model: addresses, subframe kinds, enum-valued register
//! types, the raw transfer unit [`RegisterData`], and the integer codec that
//! turns typed values into little-endian wire payloads and back.

use crate::bytes::{
    lemma_u16_le_round_trip, lemma_u32_le_round_trip, signed_of, u16_from_le, u16_le,
    u16_le_bytes, u16_of_le, u32_from_le, u32_le, u32_le_bytes, u32_of_le, unsigned_of, varint,
    varint_push, varint_read_spec,
};
use crate::error::RegisterError;
use crate::protocol::Resolution;
use vstd::prelude::*;

verus! {

/// The subframe kinds: the top six bits of a subframe header byte. Write
/// and Read kinds go to the device, Reply kinds come back, and `Nop` pads
/// between subframes.
#[derive(Clone, Copy, Debug, PartialEq, Eq, Structural, Hash)]
#[allow(missing_docs)]
pub enum FrameRegisters {
    WriteInt8,
    WriteInt16,
    WriteInt32,
    WriteF32,
    ReadInt8,
    ReadInt16,
    ReadInt32,
    ReadF32,
    ReplyInt8,
    ReplyInt16,
    ReplyInt32,
    ReplyF32,
    WriteError,
    ReadError,
    StreamClientData,
    StreamServerData,
    StreamClientPoll,
    Nop,
}

impl FrameRegisters {
    /// The wire value of this variant.
    pub open spec fn spec_value(self) -> u8 {
        match self {
            FrameRegisters::WriteInt8 => 0x00,
            FrameRegisters::WriteInt16 => 0x04,
            FrameRegisters::WriteInt32 => 0x08,
            FrameRegisters::WriteF32 => 0x0c,
            FrameRegisters::ReadInt8 => 0x10,
            FrameRegisters::ReadInt16 => 0x14,
            FrameRegisters::ReadInt32 => 0x18,
            FrameRegisters::ReadF32 => 0x1c,
            FrameRegisters::ReplyInt8 => 0x20,
            FrameRegisters::ReplyInt16 => 0x24,
            FrameRegisters::ReplyInt32 => 0x28,
            FrameRegisters::ReplyF32 => 0x2c,
            FrameRegisters::WriteError => 0x30,
            FrameRegisters::ReadError => 0x31,
            FrameRegisters::StreamClientData => 0x40,
            FrameRegisters::StreamServerData => 0x41,
            FrameRegisters::StreamClientPoll => 0x42,
            FrameRegisters::Nop => 0x50,
        }
    }

    /// The wire value of this variant.
    pub fn value(self) -> (v: u8)
        ensures
            v == self.spec_value(),
            v % 4 == 0 || self == FrameRegisters::ReadError || self == FrameRegisters::StreamServerData || self == FrameRegisters::StreamClientPoll,
    {
        match self {
            FrameRegisters::WriteInt8 => 0x00,
            FrameRegisters::WriteInt16 => 0x04,
            FrameRegisters::WriteInt32 => 0x08,
            FrameRegisters::WriteF32 => 0x0c,
            FrameRegisters::ReadInt8 => 0x10,
            FrameRegisters::ReadInt16 => 0x14,
            FrameRegisters::ReadInt32 => 0x18,
            FrameRegisters::ReadF32 => 0x1c,
            FrameRegisters::ReplyInt8 => 0x20,
            FrameRegisters::ReplyInt16 => 0x24,
            FrameRegisters::ReplyInt32 => 0x28,
            FrameRegisters::ReplyF32 => 0x2c,
            FrameRegisters::WriteError => 0x30,
            FrameRegisters::ReadError => 0x31,
            FrameRegisters::StreamClientData => 0x40,
            FrameRegisters::StreamServerData => 0x41,
            FrameRegisters::StreamClientPoll => 0x42,
            FrameRegisters::Nop => 0x50,
        }
    }

    /// The variant named by a wire value, if any.
    pub open spec fn spec_from_u8(v: u8) -> Option<FrameRegisters> {
        if v == 0x00 {
            Some(FrameRegisters::WriteInt8)
        } else if v == 0x04 {
            Some(FrameRegisters::WriteInt16)
        } else if v == 0x08 {
            Some(FrameRegisters::WriteInt32)
        } else if v == 0x0c {
            Some(FrameRegisters::WriteF32)
        } else if v == 0x10 {
            Some(FrameRegisters::ReadInt8)
        } else if v == 0x14 {
            Some(FrameRegisters::ReadInt16)
        } else if v == 0x18 {
            Some(FrameRegisters::ReadInt32)
        } else if v == 0x1c {
            Some(FrameRegisters::ReadF32)
        } else if v == 0x20 {
            Some(FrameRegisters::ReplyInt8)
        } else if v == 0x24 {
            Some(FrameRegisters::ReplyInt16)
        } else if v == 0x28 {
            Some(FrameRegisters::ReplyInt32)
        } else if v == 0x2c {
            Some(FrameRegisters::ReplyF32)
        } else if v == 0x30 {
            Some(FrameRegisters::WriteError)
        } else if v == 0x31 {
            Some(FrameRegisters::ReadError)
        } else if v == 0x40 {
            Some(FrameRegisters::StreamClientData)
        } else if v == 0x41 {
            Some(FrameRegisters::StreamServerData)
        } else if v == 0x42 {
            Some(FrameRegisters::StreamClientPoll)
        } else if v == 0x50 {
            Some(FrameRegisters::Nop)
        } else {
            None
        }
    }

    /// The variant named by a wire value, if any.
    pub fn from_u8(v: u8) -> (r: Option<FrameRegisters>)
        ensures
            r == Self::spec_from_u8(v),
    {
        match v {
            0x00 => Some(FrameRegisters::WriteInt8),
            0x04 => Some(FrameRegisters::WriteInt16),
            0x08 => Some(FrameRegisters::WriteInt32),
            0x0c => Some(FrameRegisters::WriteF32),
            0x10 => Some(FrameRegisters::ReadInt8),
            0x14 => Some(FrameRegisters::ReadInt16),
            0x18 => Some(FrameRegisters::ReadInt32),
            0x1c => Some(FrameRegisters::ReadF32),
            0x20 => Some(FrameRegisters::ReplyInt8),
            0x24 => Some(FrameRegisters::ReplyInt16),
            0x28 => Some(FrameRegisters::ReplyInt32),
            0x2c => Some(FrameRegisters::ReplyF32),
            0x30 => Some(FrameRegisters::WriteError),
            0x31 => Some(FrameRegisters::ReadError),
            0x40 => Some(FrameRegisters::StreamClientData),
            0x41 => Some(FrameRegisters::StreamServerData),
            0x42 => Some(FrameRegisters::StreamClientPoll),
            0x50 => Some(FrameRegisters::Nop),
            _ => None,
        }
    }
}


/// The operating modes the device's mode register can take.
#[derive(Clone, Copy, Debug, PartialEq, Eq, Structural, Hash)]
#[allow(missing_docs)]
pub enum Modes {
    Stopped,
    Fault,
    Enabling,
    Calibrating,
    CalibrationComplete,
    Pwm,
    Voltage,
    VoltageFoc,
    VoltageDq,
    Current,
    Position,
    PositionTimeout,
    ZeroVelocity,
    StayWithin,
    MeasureInd,
    Brake,
}

impl Modes {
    /// The wire value of this variant.
    pub open spec fn spec_value(self) -> u8 {
        match self {
            Modes::Stopped => 0,
            Modes::Fault => 1,
            Modes::Enabling => 2,
            Modes::Calibrating => 3,
            Modes::CalibrationComplete => 4,
            Modes::Pwm => 5,
            Modes::Voltage => 6,
            Modes::VoltageFoc => 7,
            Modes::VoltageDq => 8,
            Modes::Current => 9,
            Modes::Position => 10,
            Modes::PositionTimeout => 11,
            Modes::ZeroVelocity => 12,
            Modes::StayWithin => 13,
            Modes::MeasureInd => 14,
            Modes::Brake => 15,
        }
    }

    /// The wire value of this variant.
    pub fn value(self) -> (v: u8)
        ensures
            v == self.spec_value(),
            v <= 15,
    {
        match self {
            Modes::Stopped => 0,
            Modes::Fault => 1,
            Modes::Enabling => 2,
            Modes::Calibrating => 3,
            Modes::CalibrationComplete => 4,
            Modes::Pwm => 5,
            Modes::Voltage => 6,
            Modes::VoltageFoc => 7,
            Modes::VoltageDq => 8,
            Modes::Current => 9,
            Modes::Position => 10,
            Modes::PositionTimeout => 11,
            Modes::ZeroVelocity => 12,
            Modes::StayWithin => 13,
            Modes::MeasureInd => 14,
            Modes::Brake => 15,
        }
    }

    /// The variant named by a wire value, if any.
    pub open spec fn spec_from_u8(v: u8) -> Option<Modes> {
        if v == 0 {
            Some(Modes::Stopped)
        } else if v == 1 {
            Some(Modes::Fault)
        } else if v == 2 {
            Some(Modes::Enabling)
        } else if v == 3 {
            Some(Modes::Calibrating)
        } else if v == 4 {
            Some(Modes::CalibrationComplete)
        } else if v == 5 {
            Some(Modes::Pwm)
        } else if v == 6 {
            Some(Modes::Voltage)
        } else if v == 7 {
            Some(Modes::VoltageFoc)
        } else if v == 8 {
            Some(Modes::VoltageDq)
        } else if v == 9 {
            Some(Modes::Current)
        } else if v == 10 {
            Some(Modes::Position)
        } else if v == 11 {
            Some(Modes::PositionTimeout)
        } else if v == 12 {
            Some(Modes::ZeroVelocity)
        } else if v == 13 {
            Some(Modes::StayWithin)
        } else if v == 14 {
            Some(Modes::MeasureInd)
        } else if v == 15 {
            Some(Modes::Brake)
        } else {
            None
        }
    }

    /// The variant named by a wire value, if any.
    pub fn from_u8(v: u8) -> (r: Option<Modes>)
        ensures
            r == Self::spec_from_u8(v),
    {
        match v {
            0 => Some(Modes::Stopped),
            1 => Some(Modes::Fault),
            2 => Some(Modes::Enabling),
            3 => Some(Modes::Calibrating),
            4 => Some(Modes::CalibrationComplete),
            5 => Some(Modes::Pwm),
            6 => Some(Modes::Voltage),
            7 => Some(Modes::VoltageFoc),
            8 => Some(Modes::VoltageDq),
            9 => Some(Modes::Current),
            10 => Some(Modes::Position),
            11 => Some(Modes::PositionTimeout),
            12 => Some(Modes::ZeroVelocity),
            13 => Some(Modes::StayWithin),
            14 => Some(Modes::MeasureInd),
            15 => Some(Modes::Brake),
            _ => None,
        }
    }
}


/// The fault codes the device's fault register can report.
#[derive(Clone, Copy, Debug, PartialEq, Eq, Structural, Hash)]
#[allow(missing_docs)]
pub enum Faults {
    Success,
    DmaStreamTransferError,
    DmaStreamFifoError,
    UartOverrunError,
    UartFramingError,
    UartNoiseError,
    UartBufferOverrunError,
    UartParityError,
    CalibrationFault,
    MotorDriverFault,
    OverVoltage,
    EncoderFault,
    MotorNotConfigured,
    PwmCycleOverrun,
    OverTemperature,
    StartOutsideLimit,
    UnderVoltage,
    ConfigChanged,
    ThetaInvalid,
    PositionInvalid,
    DriverEnableFault,
    StopPositionDeprecated,
    TimingViolation,
}

impl Faults {
    /// The wire value of this variant.
    pub open spec fn spec_value(self) -> u8 {
        match self {
            Faults::Success => 0,
            Faults::DmaStreamTransferError => 1,
            Faults::DmaStreamFifoError => 2,
            Faults::UartOverrunError => 3,
            Faults::UartFramingError => 4,
            Faults::UartNoiseError => 5,
            Faults::UartBufferOverrunError => 6,
            Faults::UartParityError => 7,
            Faults::CalibrationFault => 32,
            Faults::MotorDriverFault => 33,
            Faults::OverVoltage => 34,
            Faults::EncoderFault => 35,
            Faults::MotorNotConfigured => 36,
            Faults::PwmCycleOverrun => 37,
            Faults::OverTemperature => 38,
            Faults::StartOutsideLimit => 39,
            Faults::UnderVoltage => 40,
            Faults::ConfigChanged => 41,
            Faults::ThetaInvalid => 42,
            Faults::PositionInvalid => 43,
            Faults::DriverEnableFault => 44,
            Faults::StopPositionDeprecated => 45,
            Faults::TimingViolation => 46,
        }
    }

    /// The wire value of this variant.
    pub fn value(self) -> (v: u8)
        ensures
            v == self.spec_value(),
            v <= 46,
    {
        match self {
            Faults::Success => 0,
            Faults::DmaStreamTransferError => 1,
            Faults::DmaStreamFifoError => 2,
            Faults::UartOverrunError => 3,
            Faults::UartFramingError => 4,
            Faults::UartNoiseError => 5,
            Faults::UartBufferOverrunError => 6,
            Faults::UartParityError => 7,
            Faults::CalibrationFault => 32,
            Faults::MotorDriverFault => 33,
            Faults::OverVoltage => 34,
            Faults::EncoderFault => 35,
            Faults::MotorNotConfigured => 36,
            Faults::PwmCycleOverrun => 37,
            Faults::OverTemperature => 38,
            Faults::StartOutsideLimit => 39,
            Faults::UnderVoltage => 40,
            Faults::ConfigChanged => 41,
            Faults::ThetaInvalid => 42,
            Faults::PositionInvalid => 43,
            Faults::DriverEnableFault => 44,
            Faults::StopPositionDeprecated => 45,
            Faults::TimingViolation => 46,
        }
    }

    /// The variant named by a wire value, if any.
    pub open spec fn spec_from_u8(v: u8) -> Option<Faults> {
        if v == 0 {
            Some(Faults::Success)
        } else if v == 1 {
            Some(Faults::DmaStreamTransferError)
        } else if v == 2 {
            Some(Faults::DmaStreamFifoError)
        } else if v == 3 {
            Some(Faults::UartOverrunError)
        } else if v == 4 {
            Some(Faults::UartFramingError)
        } else if v == 5 {
            Some(Faults::UartNoiseError)
        } else if v == 6 {
            Some(Faults::UartBufferOverrunError)
        } else if v == 7 {
            Some(Faults::UartParityError)
        } else if v == 32 {
            Some(Faults::CalibrationFault)
        } else if v == 33 {
            Some(Faults::MotorDriverFault)
        } else if v == 34 {
            Some(Faults::OverVoltage)
        } else if v == 35 {
            Some(Faults::EncoderFault)
        } else if v == 36 {
            Some(Faults::MotorNotConfigured)
        } else if v == 37 {
            Some(Faults::PwmCycleOverrun)
        } else if v == 38 {
            Some(Faults::OverTemperature)
        } else if v == 39 {
            Some(Faults::StartOutsideLimit)
        } else if v == 40 {
            Some(Faults::UnderVoltage)
        } else if v == 41 {
            Some(Faults::ConfigChanged)
        } else if v == 42 {
            Some(Faults::ThetaInvalid)
        } else if v == 43 {
            Some(Faults::PositionInvalid)
        } else if v == 44 {
            Some(Faults::DriverEnableFault)
        } else if v == 45 {
            Some(Faults::StopPositionDeprecated)
        } else if v == 46 {
            Some(Faults::TimingViolation)
        } else {
            None
        }
    }

    /// The variant named by a wire value, if any.
    pub fn from_u8(v: u8) -> (r: Option<Faults>)
        ensures
            r == Self::spec_from_u8(v),
    {
        match v {
            0 => Some(Faults::Success),
            1 => Some(Faults::DmaStreamTransferError),
            2 => Some(Faults::DmaStreamFifoError),
            3 => Some(Faults::UartOverrunError),
            4 => Some(Faults::UartFramingError),
            5 => Some(Faults::UartNoiseError),
            6 => Some(Faults::UartBufferOverrunError),
            7 => Some(Faults::UartParityError),
            32 => Some(Faults::CalibrationFault),
            33 => Some(Faults::MotorDriverFault),
            34 => Some(Faults::OverVoltage),
            35 => Some(Faults::EncoderFault),
            36 => Some(Faults::MotorNotConfigured),
            37 => Some(Faults::PwmCycleOverrun),
            38 => Some(Faults::OverTemperature),
            39 => Some(Faults::StartOutsideLimit),
            40 => Some(Faults::UnderVoltage),
            41 => Some(Faults::ConfigChanged),
            42 => Some(Faults::ThetaInvalid),
            43 => Some(Faults::PositionInvalid),
            44 => Some(Faults::DriverEnableFault),
            45 => Some(Faults::StopPositionDeprecated),
            46 => Some(Faults::TimingViolation),
            _ => None,
        }
    }
}


/// The homing states the device's home-state register can report.
#[derive(Clone, Copy, Debug, PartialEq, Eq, Structural, Hash)]
#[allow(missing_docs)]
pub enum HomeStates {
    Relative,
    Rotor,
    Output,
}

impl HomeStates {
    /// The wire value of this variant.
    pub open spec fn spec_value(self) -> u8 {
        match self {
            HomeStates::Relative => 0,
            HomeStates::Rotor => 1,
            HomeStates::Output => 2,
        }
    }

    /// The wire value of this variant.
    pub fn value(self) -> (v: u8)
        ensures
            v == self.spec_value(),
            v <= 2,
    {
        match self {
            HomeStates::Relative => 0,
            HomeStates::Rotor => 1,
            HomeStates::Output => 2,
        }
    }

    /// The variant named by a wire value, if any.
    pub open spec fn spec_from_u8(v: u8) -> Option<HomeStates> {
        if v == 0 {
            Some(HomeStates::Relative)
        } else if v == 1 {
            Some(HomeStates::Rotor)
        } else if v == 2 {
            Some(HomeStates::Output)
        } else {
            None
        }
    }

    /// The variant named by a wire value, if any.
    pub fn from_u8(v: u8) -> (r: Option<HomeStates>)
        ensures
            r == Self::spec_from_u8(v),
    {
        match v {
            0 => Some(HomeStates::Relative),
            1 => Some(HomeStates::Rotor),
            2 => Some(HomeStates::Output),
            _ => None,
        }
    }
}
/// Every register address the device exposes. The numeric value of each
/// address is given by [`RegisterAddr::spec_value`]; addresses are fixed by
/// the protocol and never computed.
#[derive(Clone, Copy, Debug, PartialEq, Eq, Structural, Hash)]
#[allow(missing_docs)]
pub enum RegisterAddr {
    Mode,
    Position,
    Velocity,
    Torque,
    QCurrent,
    DCurrent,
    AbsPosition,
    MotorTemperature,
    TrajectoryComplete,
    HomeState,
    Voltage,
    Temperature,
    Fault,
    PwmPhaseA,
    PwmPhaseB,
    PwmPhaseC,
    VoltagePhaseA,
    VoltagePhaseB,
    VoltagePhaseC,
    VfocTheta,
    VfocVoltage,
    VoltageDqD,
    VoltageDqQ,
    CommandQCurrent,
    CommandDCurrent,
    CommandPosition,
    CommandVelocity,
    CommandFeedforwardTorque,
    CommandKpScale,
    CommandKdScale,
    CommandPositionMaxTorque,
    CommandStopPosition,
    CommandTimeout,
    VelocityLimit,
    AccelerationLimit,
    FixedVoltageOverride,
    PositionKp,
    PositionKi,
    PositionKd,
    PositionFeedforward,
    PositionCommand,
    ControlPosition,
    ControlVelocity,
    ControlTorque,
    ControlPositionError,
    ControlVelocityError,
    ControlTorqueError,
    CommandStayWithinLowerBound,
    CommandStayWithinUpperBound,
    CommandStayWithinFeedforwardTorque,
    CommandStayWithinKpScale,
    CommandStayWithinKdScale,
    CommandStayWithinPositionMaxTorque,
    CommandStayWithinTimeout,
    Encoder0position,
    Encoder0velocity,
    Encoder1position,
    Encoder1velocity,
    Encoder2position,
    Encoder2velocity,
    EncoderValidity,
    Aux1gpioCommand,
    Aux2gpioCommand,
    Aux1gpioStatus,
    Aux2gpioStatus,
    Aux1analogIn1,
    Aux1analogIn2,
    Aux1analogIn3,
    Aux1analogIn4,
    Aux1analogIn5,
    Aux2analogIn1,
    Aux2analogIn2,
    Aux2analogIn3,
    Aux2analogIn4,
    Aux2analogIn5,
    MillisecondCounter,
    ClockTrim,
    RegisterMapVersion,
    SerialNumber,
    Rezero,
    SetOutputExact,
    RequireReindex,
    DriverFault1,
    DriverFault2,
}

impl RegisterAddr {
    /// The numeric address of this register.
    pub open spec fn spec_value(self) -> u16 {
        match self {
            RegisterAddr::Mode => 0x000,
            RegisterAddr::Position => 0x001,
            RegisterAddr::Velocity => 0x002,
            RegisterAddr::Torque => 0x003,
            RegisterAddr::QCurrent => 0x004,
            RegisterAddr::DCurrent => 0x005,
            RegisterAddr::AbsPosition => 0x006,
            RegisterAddr::MotorTemperature => 0x00a,
            RegisterAddr::TrajectoryComplete => 0x00b,
            RegisterAddr::HomeState => 0x00c,
            RegisterAddr::Voltage => 0x00d,
            RegisterAddr::Temperature => 0x00e,
            RegisterAddr::Fault => 0x00f,
            RegisterAddr::PwmPhaseA => 0x010,
            RegisterAddr::PwmPhaseB => 0x011,
            RegisterAddr::PwmPhaseC => 0x012,
            RegisterAddr::VoltagePhaseA => 0x014,
            RegisterAddr::VoltagePhaseB => 0x015,
            RegisterAddr::VoltagePhaseC => 0x016,
            RegisterAddr::VfocTheta => 0x018,
            RegisterAddr::VfocVoltage => 0x019,
            RegisterAddr::VoltageDqD => 0x01a,
            RegisterAddr::VoltageDqQ => 0x01b,
            RegisterAddr::CommandQCurrent => 0x01c,
            RegisterAddr::CommandDCurrent => 0x01d,
            RegisterAddr::CommandPosition => 0x020,
            RegisterAddr::CommandVelocity => 0x021,
            RegisterAddr::CommandFeedforwardTorque => 0x022,
            RegisterAddr::CommandKpScale => 0x023,
            RegisterAddr::CommandKdScale => 0x024,
            RegisterAddr::CommandPositionMaxTorque => 0x025,
            RegisterAddr::CommandStopPosition => 0x026,
            RegisterAddr::CommandTimeout => 0x027,
            RegisterAddr::VelocityLimit => 0x028,
            RegisterAddr::AccelerationLimit => 0x029,
            RegisterAddr::FixedVoltageOverride => 0x02a,
            RegisterAddr::PositionKp => 0x030,
            RegisterAddr::PositionKi => 0x031,
            RegisterAddr::PositionKd => 0x032,
            RegisterAddr::PositionFeedforward => 0x033,
            RegisterAddr::PositionCommand => 0x034,
            RegisterAddr::ControlPosition => 0x038,
            RegisterAddr::ControlVelocity => 0x039,
            RegisterAddr::ControlTorque => 0x03a,
            RegisterAddr::ControlPositionError => 0x03b,
            RegisterAddr::ControlVelocityError => 0x03c,
            RegisterAddr::ControlTorqueError => 0x03d,
            RegisterAddr::CommandStayWithinLowerBound => 0x040,
            RegisterAddr::CommandStayWithinUpperBound => 0x041,
            RegisterAddr::CommandStayWithinFeedforwardTorque => 0x042,
            RegisterAddr::CommandStayWithinKpScale => 0x043,
            RegisterAddr::CommandStayWithinKdScale => 0x044,
            RegisterAddr::CommandStayWithinPositionMaxTorque => 0x045,
            RegisterAddr::CommandStayWithinTimeout => 0x046,
            RegisterAddr::Encoder0position => 0x050,
            RegisterAddr::Encoder0velocity => 0x051,
            RegisterAddr::Encoder1position => 0x052,
            RegisterAddr::Encoder1velocity => 0x053,
            RegisterAddr::Encoder2position => 0x054,
            RegisterAddr::Encoder2velocity => 0x055,
            RegisterAddr::EncoderValidity => 0x058,
            RegisterAddr::Aux1gpioCommand => 0x05c,
            RegisterAddr::Aux2gpioCommand => 0x05d,
            RegisterAddr::Aux1gpioStatus => 0x05e,
            RegisterAddr::Aux2gpioStatus => 0x05f,
            RegisterAddr::Aux1analogIn1 => 0x060,
            RegisterAddr::Aux1analogIn2 => 0x061,
            RegisterAddr::Aux1analogIn3 => 0x062,
            RegisterAddr::Aux1analogIn4 => 0x063,
            RegisterAddr::Aux1analogIn5 => 0x064,
            RegisterAddr::Aux2analogIn1 => 0x068,
            RegisterAddr::Aux2analogIn2 => 0x069,
            RegisterAddr::Aux2analogIn3 => 0x06a,
            RegisterAddr::Aux2analogIn4 => 0x06b,
            RegisterAddr::Aux2analogIn5 => 0x06c,
            RegisterAddr::MillisecondCounter => 0x070,
            RegisterAddr::ClockTrim => 0x071,
            RegisterAddr::RegisterMapVersion => 0x102,
            RegisterAddr::SerialNumber => 0x120,
            RegisterAddr::Rezero => 0x130,
            RegisterAddr::SetOutputExact => 0x131,
            RegisterAddr::RequireReindex => 0x132,
            RegisterAddr::DriverFault1 => 0x140,
            RegisterAddr::DriverFault2 => 0x141,
        }
    }

    /// The numeric address of this register.
    pub fn value(self) -> (v: u16)
        ensures
            v == self.spec_value(),
            v <= 0x141,
    {
        match self {
            RegisterAddr::Mode => 0x000,
            RegisterAddr::Position => 0x001,
            RegisterAddr::Velocity => 0x002,
            RegisterAddr::Torque => 0x003,
            RegisterAddr::QCurrent => 0x004,
            RegisterAddr::DCurrent => 0x005,
            RegisterAddr::AbsPosition => 0x006,
            RegisterAddr::MotorTemperature => 0x00a,
            RegisterAddr::TrajectoryComplete => 0x00b,
            RegisterAddr::HomeState => 0x00c,
            RegisterAddr::Voltage => 0x00d,
            RegisterAddr::Temperature => 0x00e,
            RegisterAddr::Fault => 0x00f,
            RegisterAddr::PwmPhaseA => 0x010,
            RegisterAddr::PwmPhaseB => 0x011,
            RegisterAddr::PwmPhaseC => 0x012,
            RegisterAddr::VoltagePhaseA => 0x014,
            RegisterAddr::VoltagePhaseB => 0x015,
            RegisterAddr::VoltagePhaseC => 0x016,
            RegisterAddr::VfocTheta => 0x018,
            RegisterAddr::VfocVoltage => 0x019,
            RegisterAddr::VoltageDqD => 0x01a,
            RegisterAddr::VoltageDqQ => 0x01b,
            RegisterAddr::CommandQCurrent => 0x01c,
            RegisterAddr::CommandDCurrent => 0x01d,
            RegisterAddr::CommandPosition => 0x020,
            RegisterAddr::CommandVelocity => 0x021,
            RegisterAddr::CommandFeedforwardTorque => 0x022,
            RegisterAddr::CommandKpScale => 0x023,
            RegisterAddr::CommandKdScale => 0x024,
            RegisterAddr::CommandPositionMaxTorque => 0x025,
            RegisterAddr::CommandStopPosition => 0x026,
            RegisterAddr::CommandTimeout => 0x027,
            RegisterAddr::VelocityLimit => 0x028,
            RegisterAddr::AccelerationLimit => 0x029,
            RegisterAddr::FixedVoltageOverride => 0x02a,
            RegisterAddr::PositionKp => 0x030,
            RegisterAddr::PositionKi => 0x031,
            RegisterAddr::PositionKd => 0x032,
            RegisterAddr::PositionFeedforward => 0x033,
            RegisterAddr::PositionCommand => 0x034,
            RegisterAddr::ControlPosition => 0x038,
            RegisterAddr::ControlVelocity => 0x039,
            RegisterAddr::ControlTorque => 0x03a,
            RegisterAddr::ControlPositionError => 0x03b,
            RegisterAddr::ControlVelocityError => 0x03c,
            RegisterAddr::ControlTorqueError => 0x03d,
            RegisterAddr::CommandStayWithinLowerBound => 0x040,
            RegisterAddr::CommandStayWithinUpperBound => 0x041,
            RegisterAddr::CommandStayWithinFeedforwardTorque => 0x042,
            RegisterAddr::CommandStayWithinKpScale => 0x043,
            RegisterAddr::CommandStayWithinKdScale => 0x044,
            RegisterAddr::CommandStayWithinPositionMaxTorque => 0x045,
            RegisterAddr::CommandStayWithinTimeout => 0x046,
            RegisterAddr::Encoder0position => 0x050,
            RegisterAddr::Encoder0velocity => 0x051,
            RegisterAddr::Encoder1position => 0x052,
            RegisterAddr::Encoder1velocity => 0x053,
            RegisterAddr::Encoder2position => 0x054,
            RegisterAddr::Encoder2velocity => 0x055,
            RegisterAddr::EncoderValidity => 0x058,
            RegisterAddr::Aux1gpioCommand => 0x05c,
            RegisterAddr::Aux2gpioCommand => 0x05d,
            RegisterAddr::Aux1gpioStatus => 0x05e,
            RegisterAddr::Aux2gpioStatus => 0x05f,
            RegisterAddr::Aux1analogIn1 => 0x060,
            RegisterAddr::Aux1analogIn2 => 0x061,
            RegisterAddr::Aux1analogIn3 => 0x062,
            RegisterAddr::Aux1analogIn4 => 0x063,
            RegisterAddr::Aux1analogIn5 => 0x064,
            RegisterAddr::Aux2analogIn1 => 0x068,
            RegisterAddr::Aux2analogIn2 => 0x069,
            RegisterAddr::Aux2analogIn3 => 0x06a,
            RegisterAddr::Aux2analogIn4 => 0x06b,
            RegisterAddr::Aux2analogIn5 => 0x06c,
            RegisterAddr::MillisecondCounter => 0x070,
            RegisterAddr::ClockTrim => 0x071,
            RegisterAddr::RegisterMapVersion => 0x102,
            RegisterAddr::SerialNumber => 0x120,
            RegisterAddr::Rezero => 0x130,
            RegisterAddr::SetOutputExact => 0x131,
            RegisterAddr::RequireReindex => 0x132,
            RegisterAddr::DriverFault1 => 0x140,
            RegisterAddr::DriverFault2 => 0x141,
        }
    }

    /// The register named by a numeric address, if any.
    pub open spec fn spec_from_u16(v: u16) -> Option<RegisterAddr> {
        if v == 0x000 {
            Some(RegisterAddr::Mode)
        } else if v == 0x001 {
            Some(RegisterAddr::Position)
        } else if v == 0x002 {
            Some(RegisterAddr::Velocity)
        } else if v == 0x003 {
            Some(RegisterAddr::Torque)
        } else if v == 0x004 {
            Some(RegisterAddr::QCurrent)
        } else if v == 0x005 {
            Some(RegisterAddr::DCurrent)
        } else if v == 0x006 {
            Some(RegisterAddr::AbsPosition)
        } else if v == 0x00a {
            Some(RegisterAddr::MotorTemperature)
        } else if v == 0x00b {
            Some(RegisterAddr::TrajectoryComplete)
        } else if v == 0x00c {
            Some(RegisterAddr::HomeState)
        } else if v == 0x00d {
            Some(RegisterAddr::Voltage)
        } else if v == 0x00e {
            Some(RegisterAddr::Temperature)
        } else if v == 0x00f {
            Some(RegisterAddr::Fault)
        } else if v == 0x010 {
            Some(RegisterAddr::PwmPhaseA)
        } else if v == 0x011 {
            Some(RegisterAddr::PwmPhaseB)
        } else if v == 0x012 {
            Some(RegisterAddr::PwmPhaseC)
        } else if v == 0x014 {
            Some(RegisterAddr::VoltagePhaseA)
        } else if v == 0x015 {
            Some(RegisterAddr::VoltagePhaseB)
        } else if v == 0x016 {
            Some(RegisterAddr::VoltagePhaseC)
        } else if v == 0x018 {
            Some(RegisterAddr::VfocTheta)
        } else if v == 0x019 {
            Some(RegisterAddr::VfocVoltage)
        } else if v == 0x01a {
            Some(RegisterAddr::VoltageDqD)
        } else if v == 0x01b {
            Some(RegisterAddr::VoltageDqQ)
        } else if v == 0x01c {
            Some(RegisterAddr::CommandQCurrent)
        } else if v == 0x01d {
            Some(RegisterAddr::CommandDCurrent)
        } else if v == 0x020 {
            Some(RegisterAddr::CommandPosition)
        } else if v == 0x021 {
            Some(RegisterAddr::CommandVelocity)
        } else if v == 0x022 {
            Some(RegisterAddr::CommandFeedforwardTorque)
        } else if v == 0x023 {
            Some(RegisterAddr::CommandKpScale)
        } else if v == 0x024 {
            Some(RegisterAddr::CommandKdScale)
        } else if v == 0x025 {
            Some(RegisterAddr::CommandPositionMaxTorque)
        } else if v == 0x026 {
            Some(RegisterAddr::CommandStopPosition)
        } else if v == 0x027 {
            Some(RegisterAddr::CommandTimeout)
        } else if v == 0x028 {
            Some(RegisterAddr::VelocityLimit)
        } else if v == 0x029 {
            Some(RegisterAddr::AccelerationLimit)
        } else if v == 0x02a {
            Some(RegisterAddr::FixedVoltageOverride)
        } else if v == 0x030 {
            Some(RegisterAddr::PositionKp)
        } else if v == 0x031 {
            Some(RegisterAddr::PositionKi)
        } else if v == 0x032 {
            Some(RegisterAddr::PositionKd)
        } else if v == 0x033 {
            Some(RegisterAddr::PositionFeedforward)
        } else if v == 0x034 {
            Some(RegisterAddr::PositionCommand)
        } else if v == 0x038 {
            Some(RegisterAddr::ControlPosition)
        } else if v == 0x039 {
            Some(RegisterAddr::ControlVelocity)
        } else if v == 0x03a {
            Some(RegisterAddr::ControlTorque)
        } else if v == 0x03b {
            Some(RegisterAddr::ControlPositionError)
        } else if v == 0x03c {
            Some(RegisterAddr::ControlVelocityError)
        } else if v == 0x03d {
            Some(RegisterAddr::ControlTorqueError)
        } else if v == 0x040 {
            Some(RegisterAddr::CommandStayWithinLowerBound)
        } else if v == 0x041 {
            Some(RegisterAddr::CommandStayWithinUpperBound)
        } else if v == 0x042 {
            Some(RegisterAddr::CommandStayWithinFeedforwardTorque)
        } else if v == 0x043 {
            Some(RegisterAddr::CommandStayWithinKpScale)
        } else if v == 0x044 {
            Some(RegisterAddr::CommandStayWithinKdScale)
        } else if v == 0x045 {
            Some(RegisterAddr::CommandStayWithinPositionMaxTorque)
        } else if v == 0x046 {
            Some(RegisterAddr::CommandStayWithinTimeout)
        } else if v == 0x050 {
            Some(RegisterAddr::Encoder0position)
        } else if v == 0x051 {
            Some(RegisterAddr::Encoder0velocity)
        } else if v == 0x052 {
            Some(RegisterAddr::Encoder1position)
        } else if v == 0x053 {
            Some(RegisterAddr::Encoder1velocity)
        } else if v == 0x054 {
            Some(RegisterAddr::Encoder2position)
        } else if v == 0x055 {
            Some(RegisterAddr::Encoder2velocity)
        } else if v == 0x058 {
            Some(RegisterAddr::EncoderValidity)
        } else if v == 0x05c {
            Some(RegisterAddr::Aux1gpioCommand)
        } else if v == 0x05d {
            Some(RegisterAddr::Aux2gpioCommand)
        } else if v == 0x05e {
            Some(RegisterAddr::Aux1gpioStatus)
        } else if v == 0x05f {
            Some(RegisterAddr::Aux2gpioStatus)
        } else if v == 0x060 {
            Some(RegisterAddr::Aux1analogIn1)
        } else if v == 0x061 {
            Some(RegisterAddr::Aux1analogIn2)
        } else if v == 0x062 {
            Some(RegisterAddr::Aux1analogIn3)
        } else if v == 0x063 {
            Some(RegisterAddr::Aux1analogIn4)
        } else if v == 0x064 {
            Some(RegisterAddr::Aux1analogIn5)
        } else if v == 0x068 {
            Some(RegisterAddr::Aux2analogIn1)
        } else if v == 0x069 {
            Some(RegisterAddr::Aux2analogIn2)
        } else if v == 0x06a {
            Some(RegisterAddr::Aux2analogIn3)
        } else if v == 0x06b {
            Some(RegisterAddr::Aux2analogIn4)
        } else if v == 0x06c {
            Some(RegisterAddr::Aux2analogIn5)
        } else if v == 0x070 {
            Some(RegisterAddr::MillisecondCounter)
        } else if v == 0x071 {
            Some(RegisterAddr::ClockTrim)
        } else if v == 0x102 {
            Some(RegisterAddr::RegisterMapVersion)
        } else if v == 0x120 {
            Some(RegisterAddr::SerialNumber)
        } else if v == 0x130 {
            Some(RegisterAddr::Rezero)
        } else if v == 0x131 {
            Some(RegisterAddr::SetOutputExact)
        } else if v == 0x132 {
            Some(RegisterAddr::RequireReindex)
        } else if v == 0x140 {
            Some(RegisterAddr::DriverFault1)
        } else if v == 0x141 {
            Some(RegisterAddr::DriverFault2)
        } else {
            None
        }
    }

    /// The register named by a numeric address, if any.
    pub fn from_u16(v: u16) -> (r: Option<RegisterAddr>)
        ensures
            r == Self::spec_from_u16(v),
    {
        match v {
            0x000 => Some(RegisterAddr::Mode),
            0x001 => Some(RegisterAddr::Position),
            0x002 => Some(RegisterAddr::Velocity),
            0x003 => Some(RegisterAddr::Torque),
            0x004 => Some(RegisterAddr::QCurrent),
            0x005 => Some(RegisterAddr::DCurrent),
            0x006 => Some(RegisterAddr::AbsPosition),
            0x00a => Some(RegisterAddr::MotorTemperature),
            0x00b => Some(RegisterAddr::TrajectoryComplete),
            0x00c => Some(RegisterAddr::HomeState),
            0x00d => Some(RegisterAddr::Voltage),
            0x00e => Some(RegisterAddr::Temperature),
            0x00f => Some(RegisterAddr::Fault),
            0x010 => Some(RegisterAddr::PwmPhaseA),
            0x011 => Some(RegisterAddr::PwmPhaseB),
            0x012 => Some(RegisterAddr::PwmPhaseC),
            0x014 => Some(RegisterAddr::VoltagePhaseA),
            0x015 => Some(RegisterAddr::VoltagePhaseB),
            0x016 => Some(RegisterAddr::VoltagePhaseC),
            0x018 => Some(RegisterAddr::VfocTheta),
            0x019 => Some(RegisterAddr::VfocVoltage),
            0x01a => Some(RegisterAddr::VoltageDqD),
            0x01b => Some(RegisterAddr::VoltageDqQ),
            0x01c => Some(RegisterAddr::CommandQCurrent),
            0x01d => Some(RegisterAddr::CommandDCurrent),
            0x020 => Some(RegisterAddr::CommandPosition),
            0x021 => Some(RegisterAddr::CommandVelocity),
            0x022 => Some(RegisterAddr::CommandFeedforwardTorque),
            0x023 => Some(RegisterAddr::CommandKpScale),
            0x024 => Some(RegisterAddr::CommandKdScale),
            0x025 => Some(RegisterAddr::CommandPositionMaxTorque),
            0x026 => Some(RegisterAddr::CommandStopPosition),
            0x027 => Some(RegisterAddr::CommandTimeout),
            0x028 => Some(RegisterAddr::VelocityLimit),
            0x029 => Some(RegisterAddr::AccelerationLimit),
            0x02a => Some(RegisterAddr::FixedVoltageOverride),
            0x030 => Some(RegisterAddr::PositionKp),
            0x031 => Some(RegisterAddr::PositionKi),
            0x032 => Some(RegisterAddr::PositionKd),
            0x033 => Some(RegisterAddr::PositionFeedforward),
            0x034 => Some(RegisterAddr::PositionCommand),
            0x038 => Some(RegisterAddr::ControlPosition),
            0x039 => Some(RegisterAddr::ControlVelocity),
            0x03a => Some(RegisterAddr::ControlTorque),
            0x03b => Some(RegisterAddr::ControlPositionError),
            0x03c => Some(RegisterAddr::ControlVelocityError),
            0x03d => Some(RegisterAddr::ControlTorqueError),
            0x040 => Some(RegisterAddr::CommandStayWithinLowerBound),
            0x041 => Some(RegisterAddr::CommandStayWithinUpperBound),
            0x042 => Some(RegisterAddr::CommandStayWithinFeedforwardTorque),
            0x043 => Some(RegisterAddr::CommandStayWithinKpScale),
            0x044 => Some(RegisterAddr::CommandStayWithinKdScale),
            0x045 => Some(RegisterAddr::CommandStayWithinPositionMaxTorque),
            0x046 => Some(RegisterAddr::CommandStayWithinTimeout),
            0x050 => Some(RegisterAddr::Encoder0position),
            0x051 => Some(RegisterAddr::Encoder0velocity),
            0x052 => Some(RegisterAddr::Encoder1position),
            0x053 => Some(RegisterAddr::Encoder1velocity),
            0x054 => Some(RegisterAddr::Encoder2position),
            0x055 => Some(RegisterAddr::Encoder2velocity),
            0x058 => Some(RegisterAddr::EncoderValidity),
            0x05c => Some(RegisterAddr::Aux1gpioCommand),
            0x05d => Some(RegisterAddr::Aux2gpioCommand),
            0x05e => Some(RegisterAddr::Aux1gpioStatus),
            0x05f => Some(RegisterAddr::Aux2gpioStatus),
            0x060 => Some(RegisterAddr::Aux1analogIn1),
            0x061 => Some(RegisterAddr::Aux1analogIn2),
            0x062 => Some(RegisterAddr::Aux1analogIn3),
            0x063 => Some(RegisterAddr::Aux1analogIn4),
            0x064 => Some(RegisterAddr::Aux1analogIn5),
            0x068 => Some(RegisterAddr::Aux2analogIn1),
            0x069 => Some(RegisterAddr::Aux2analogIn2),
            0x06a => Some(RegisterAddr::Aux2analogIn3),
            0x06b => Some(RegisterAddr::Aux2analogIn4),
            0x06c => Some(RegisterAddr::Aux2analogIn5),
            0x070 => Some(RegisterAddr::MillisecondCounter),
            0x071 => Some(RegisterAddr::ClockTrim),
            0x102 => Some(RegisterAddr::RegisterMapVersion),
            0x120 => Some(RegisterAddr::SerialNumber),
            0x130 => Some(RegisterAddr::Rezero),
            0x131 => Some(RegisterAddr::SetOutputExact),
            0x132 => Some(RegisterAddr::RequireReindex),
            0x140 => Some(RegisterAddr::DriverFault1),
            0x141 => Some(RegisterAddr::DriverFault2),
            _ => None,
        }
    }
}

impl FrameRegisters {
    /// The resolution a kind carries, or `None` for the kinds that carry no
    /// register payload (errors, streams, padding).
    pub open spec fn spec_resolution(self) -> Option<Resolution> {
        match self {
            FrameRegisters::WriteInt8 | FrameRegisters::ReadInt8 | FrameRegisters::ReplyInt8 => Some(
                Resolution::Int8,
            ),
            FrameRegisters::WriteInt16 | FrameRegisters::ReadInt16 | FrameRegisters::ReplyInt16 => Some(
                Resolution::Int16,
            ),
            FrameRegisters::WriteInt32 | FrameRegisters::ReadInt32 | FrameRegisters::ReplyInt32 => Some(
                Resolution::Int32,
            ),
            FrameRegisters::WriteF32 | FrameRegisters::ReadF32 | FrameRegisters::ReplyF32 => Some(
                Resolution::Float,
            ),
            _ => None,
        }
    }

    /// Returns the [`Resolution`] this kind carries, if any.
    pub fn resolution(&self) -> (r: Option<Resolution>)
        ensures
            r == self.spec_resolution(),
    {
        match self {
            FrameRegisters::WriteInt8 | FrameRegisters::ReadInt8 | FrameRegisters::ReplyInt8 => Some(
                Resolution::Int8,
            ),
            FrameRegisters::WriteInt16 | FrameRegisters::ReadInt16 | FrameRegisters::ReplyInt16 => Some(
                Resolution::Int16,
            ),
            FrameRegisters::WriteInt32 | FrameRegisters::ReadInt32 | FrameRegisters::ReplyInt32 => Some(
                Resolution::Int32,
            ),
            FrameRegisters::WriteF32 | FrameRegisters::ReadF32 | FrameRegisters::ReplyF32 => Some(
                Resolution::Float,
            ),
            _ => None,
        }
    }

    /// Whether this kind announces a read request (no payload on the wire).
    pub open spec fn is_read_kind(self) -> bool {
        match self {
            FrameRegisters::ReadInt8 | FrameRegisters::ReadInt16 | FrameRegisters::ReadInt32
                | FrameRegisters::ReadF32 => true,
            _ => false,
        }
    }
}

impl RegisterAddr {
    /// Converts the address to its wire form: a little-endian base-128
    /// varint, as [`crate::bytes::varint`] lays it out.
    pub fn address_as_bytes(&self) -> (r: Vec<u8>)
        ensures
            r@ == varint(self.spec_value() as nat),
    {
        let mut buf: Vec<u8> = Vec::new();
        varint_push(&mut buf, self.value());
        buf
    }
}

/// Whether `v` is representable as a signed integer of the wire width that
/// `res` selects. Never true at float resolution: integers are not sent as
/// IEEE-754.
pub open spec fn int_in_width(v: int, res: Resolution) -> bool {
    match res {
        Resolution::Int8 => -128 <= v <= 127,
        Resolution::Int16 => -32768 <= v <= 32767,
        Resolution::Int32 => -0x8000_0000 <= v <= 0x7fff_ffff,
        Resolution::Float => false,
    }
}

/// Whether `v` is representable as an unsigned value at `res`: narrowing
/// keeps the signed upper bound of the target width.
pub open spec fn uint_in_width(v: int, res: Resolution) -> bool {
    match res {
        Resolution::Int8 => 0 <= v <= 127,
        Resolution::Int16 => 0 <= v <= 32767,
        Resolution::Int32 => 0 <= v <= 0xffff_ffff,
        Resolution::Float => false,
    }
}

/// Half the size of the value range of the wire width `res` selects.
pub open spec fn half_of(res: Resolution) -> int {
    match res {
        Resolution::Int8 => 128,
        Resolution::Int16 => 32768,
        Resolution::Int32 => 0x8000_0000,
        Resolution::Float => 0,
    }
}

/// The little-endian two's-complement payload of `v` at an integer
/// resolution (meaningful when `int_in_width(v, res)` holds).
pub open spec fn int_payload(v: int, res: Resolution) -> Seq<u8> {
    match res {
        Resolution::Int8 => seq![unsigned_of(v, 128) as u8],
        Resolution::Int16 => u16_le(unsigned_of(v, 32768) as u16),
        Resolution::Int32 => u32_le(unsigned_of(v, 0x8000_0000) as u32),
        Resolution::Float => Seq::empty(),
    }
}

/// The unsigned little-endian value of the first `res.spec_size()` bytes of
/// a payload (meaningful when enough bytes are present).
pub open spec fn payload_uint(b: Seq<u8>, res: Resolution) -> int {
    match res {
        Resolution::Int8 => b[0] as int,
        Resolution::Int16 => u16_of_le(b[0], b[1]) as int,
        Resolution::Int32 => u32_of_le(b[0], b[1], b[2], b[3]) as int,
        Resolution::Float => 0,
    }
}

/// What encoding a signed integer at `res` returns: the payload bytes, or
/// `IntAsFloat` at float resolution, or `Overflow` when `v` does not fit.
pub open spec fn spec_encode_int(v: int, res: Resolution) -> Result<Seq<u8>, RegisterError> {
    if res == Resolution::Float {
        Err(RegisterError::IntAsFloat)
    } else if !int_in_width(v, res) {
        Err(RegisterError::Overflow)
    } else {
        Ok(int_payload(v, res))
    }
}

/// What encoding an unsigned integer at `res` returns.
pub open spec fn spec_encode_uint(v: int, res: Resolution) -> Result<Seq<u8>, RegisterError> {
    if res == Resolution::Float {
        Err(RegisterError::IntAsFloat)
    } else if !uint_in_width(v, res) {
        Err(RegisterError::Overflow)
    } else {
        Ok(int_payload(v, res))
    }
}

/// What decoding a payload as a sign-extended integer returns: the
/// two's-complement reading of the first width bytes, or `IntAsFloat` at
/// float resolution, or `Io` when the payload is too short.
pub open spec fn spec_decode_signed(b: Seq<u8>, res: Resolution) -> Result<int, RegisterError> {
    if res == Resolution::Float {
        Err(RegisterError::IntAsFloat)
    } else if b.len() < res.spec_size() {
        Err(RegisterError::Io)
    } else {
        Ok(signed_of(payload_uint(b, res), half_of(res)))
    }
}

/// What decoding a payload as an unsigned integer returns.
pub open spec fn spec_decode_unsigned(b: Seq<u8>, res: Resolution) -> Result<int, RegisterError> {
    if res == Resolution::Float {
        Err(RegisterError::IntAsFloat)
    } else if b.len() < res.spec_size() {
        Err(RegisterError::Io)
    } else {
        Ok(payload_uint(b, res))
    }
}

/// Encodes a signed integer as a little-endian payload at `res`, as
/// [`spec_encode_int`] lays it out.
pub fn encode_int(v: i32, res: Resolution) -> (r: Result<Vec<u8>, RegisterError>)
    ensures
        r matches Ok(b) ==> spec_encode_int(v as int, res) == Ok::<Seq<u8>, RegisterError>(b@),
        r matches Err(e) ==> spec_encode_int(v as int, res) == Err::<Seq<u8>, RegisterError>(e),
{
    match res {
        Resolution::Int8 => {
            if v < -128 || v > 127 {
                Err(RegisterError::Overflow)
            } else {
                let w: u8 = if v < 0 {
                    (v + 256) as u8
                } else {
                    v as u8
                };
                let mut b: Vec<u8> = Vec::new();
                b.push(w);
                proof {
                    assert(b@ =~= int_payload(v as int, res));
                }
                Ok(b)
            }
        },
        Resolution::Int16 => {
            if v < -32768 || v > 32767 {
                Err(RegisterError::Overflow)
            } else {
                let w: u16 = if v < 0 {
                    (v + 65536) as u16
                } else {
                    v as u16
                };
                Ok(u16_le_bytes(w))
            }
        },
        Resolution::Int32 => {
            let w: u32 = if v < 0 {
                ((v as i64) + 4294967296i64) as u32
            } else {
                v as u32
            };
            Ok(u32_le_bytes(w))
        },
        Resolution::Float => Err(RegisterError::IntAsFloat),
    }
}

/// Encodes an unsigned integer as a little-endian payload at `res`, as
/// [`spec_encode_uint`] lays it out.
pub fn encode_uint(v: u32, res: Resolution) -> (r: Result<Vec<u8>, RegisterError>)
    ensures
        r matches Ok(b) ==> spec_encode_uint(v as int, res) == Ok::<Seq<u8>, RegisterError>(b@),
        r matches Err(e) ==> spec_encode_uint(v as int, res) == Err::<Seq<u8>, RegisterError>(e),
{
    match res {
        Resolution::Int8 => {
            if v > 127 {
                Err(RegisterError::Overflow)
            } else {
                let mut b: Vec<u8> = Vec::new();
                b.push(v as u8);
                proof {
                    assert(b@ =~= int_payload(v as int, res));
                }
                Ok(b)
            }
        },
        Resolution::Int16 => {
            if v > 32767 {
                Err(RegisterError::Overflow)
            } else {
                Ok(u16_le_bytes(v as u16))
            }
        },
        Resolution::Int32 => Ok(u32_le_bytes(v)),
        Resolution::Float => Err(RegisterError::IntAsFloat),
    }
}

/// Decodes a payload as a sign-extended integer, as [`spec_decode_signed`]
/// reads it.
pub fn decode_signed(bytes: &[u8], res: Resolution) -> (r: Result<i32, RegisterError>)
    ensures
        r matches Ok(v) ==> spec_decode_signed(bytes@, res) == Ok::<int, RegisterError>(v as int),
        r matches Err(e) ==> spec_decode_signed(bytes@, res) == Err::<int, RegisterError>(e),
{
    match res {
        Resolution::Int8 => {
            if bytes.len() < 1 {
                Err(RegisterError::Io)
            } else {
                let b = bytes[0];
                if b >= 128 {
                    Ok(b as i32 - 256)
                } else {
                    Ok(b as i32)
                }
            }
        },
        Resolution::Int16 => {
            if bytes.len() < 2 {
                Err(RegisterError::Io)
            } else {
                let w = u16_from_le(bytes[0], bytes[1]);
                if w >= 32768 {
                    Ok(w as i32 - 65536)
                } else {
                    Ok(w as i32)
                }
            }
        },
        Resolution::Int32 => {
            if bytes.len() < 4 {
                Err(RegisterError::Io)
            } else {
                let w = u32_from_le(bytes[0], bytes[1], bytes[2], bytes[3]);
                if w >= 0x8000_0000 {
                    Ok(((w as i64) - 4294967296i64) as i32)
                } else {
                    Ok(w as i32)
                }
            }
        },
        Resolution::Float => Err(RegisterError::IntAsFloat),
    }
}

/// Decodes a payload as an unsigned integer, as [`spec_decode_unsigned`]
/// reads it.
pub fn decode_unsigned(bytes: &[u8], res: Resolution) -> (r: Result<u32, RegisterError>)
    ensures
        r matches Ok(v) ==> spec_decode_unsigned(bytes@, res) == Ok::<int, RegisterError>(
            v as int,
        ),
        r matches Err(e) ==> spec_decode_unsigned(bytes@, res) == Err::<int, RegisterError>(e),
{
    match res {
        Resolution::Int8 => {
            if bytes.len() < 1 {
                Err(RegisterError::Io)
            } else {
                Ok(bytes[0] as u32)
            }
        },
        Resolution::Int16 => {
            if bytes.len() < 2 {
                Err(RegisterError::Io)
            } else {
                Ok(u16_from_le(bytes[0], bytes[1]) as u32)
            }
        },
        Resolution::Int32 => {
            if bytes.len() < 4 {
                Err(RegisterError::Io)
            } else {
                Ok(u32_from_le(bytes[0], bytes[1], bytes[2], bytes[3]))
            }
        },
        Resolution::Float => Err(RegisterError::IntAsFloat),
    }
}

/// Round trip: a value encoded at an integer resolution decodes back to
/// itself, for every value the width admits.
pub proof fn lemma_int_round_trip(v: int, res: Resolution)
    requires
        res != Resolution::Float,
        int_in_width(v, res),
    ensures
        spec_decode_signed(int_payload(v, res), res) == Ok::<int, RegisterError>(v),
{
    match res {
        Resolution::Int8 => {
            assert(int_payload(v, res).len() == 1);
        },
        Resolution::Int16 => {
            let w = unsigned_of(v, 32768) as u16;
            lemma_u16_le_round_trip(w);
        },
        Resolution::Int32 => {
            let w = unsigned_of(v, 0x8000_0000) as u32;
            lemma_u32_le_round_trip(w);
        },
        Resolution::Float => {},
    }
}

/// Round trip: an unsigned value encoded at an integer resolution decodes
/// back to itself, for every value the width admits.
pub proof fn lemma_uint_round_trip(v: int, res: Resolution)
    requires
        res != Resolution::Float,
        uint_in_width(v, res),
    ensures
        spec_decode_unsigned(int_payload(v, res), res) == Ok::<int, RegisterError>(v),
{
    match res {
        Resolution::Int8 => {
            assert(int_payload(v, res).len() == 1);
        },
        Resolution::Int16 => {
            let w = unsigned_of(v, 32768) as u16;
            lemma_u16_le_round_trip(w);
        },
        Resolution::Int32 => {
            let w = unsigned_of(v, 0x8000_0000) as u32;
            lemma_u32_le_round_trip(w);
        },
        Resolution::Float => {},
    }
}

/// Overflow boundary: encoding a signed integer at an integer resolution
/// succeeds exactly when the value fits the target width; one past the
/// boundary fails with `Overflow`, and float resolution always fails with
/// `IntAsFloat`.
pub proof fn lemma_encode_overflow_boundary(v: int, res: Resolution)
    ensures
        spec_encode_int(v, res) is Ok <==> (res != Resolution::Float && int_in_width(v, res)),
        res != Resolution::Float && !int_in_width(v, res) ==> spec_encode_int(v, res) == Err::<
            Seq<u8>,
            RegisterError,
        >(RegisterError::Overflow),
        res == Resolution::Float ==> spec_encode_int(v, res) == Err::<Seq<u8>, RegisterError>(
            RegisterError::IntAsFloat,
        ),
{
}

/// Round trip for the mode register: a mode encoded at any integer
/// resolution decodes back to itself.
pub proof fn lemma_mode_round_trip(m: Modes, res: Resolution)
    requires
        res != Resolution::Float,
    ensures
        spec_mode_from_bytes(int_payload(m.spec_value() as int, res), res) == Ok::<
            Modes,
            RegisterError,
        >(m),
{
    lemma_uint_round_trip(m.spec_value() as int, res);
    assert(Modes::spec_from_u8(m.spec_value()) == Some(m));
}

/// Round trip for the fault register: a fault code encoded at any integer
/// resolution decodes back to itself.
pub proof fn lemma_fault_round_trip(f: Faults, res: Resolution)
    requires
        res != Resolution::Float,
    ensures
        spec_fault_from_bytes(int_payload(f.spec_value() as int, res), res) == Ok::<
            Faults,
            RegisterError,
        >(f),
{
    lemma_uint_round_trip(f.spec_value() as int, res);
    assert(Faults::spec_from_u8(f.spec_value()) == Some(f));
}

/// Round trip for the home-state register: a homing state encoded at any
/// integer resolution decodes back to itself.
pub proof fn lemma_home_state_round_trip(h: HomeStates, res: Resolution)
    requires
        res != Resolution::Float,
    ensures
        spec_homestate_from_bytes(int_payload(h.spec_value() as int, res), res) == Ok::<
            HomeStates,
            RegisterError,
        >(h),
{
    lemma_uint_round_trip(h.spec_value() as int, res);
    assert(HomeStates::spec_from_u8(h.spec_value()) == Some(h));
}

/// A register address always survives the trip to its varint wire form and
/// back.
pub proof fn lemma_address_varint_round_trip(a: RegisterAddr)
    ensures
        varint_read_spec(varint(a.spec_value() as nat), 0) == Some(
            (a.spec_value() as nat, varint(a.spec_value() as nat).len() as int),
        ),
{
    lemma_varint_round_trip_at(a.spec_value() as nat, Seq::empty());
}

/// Reading a varint encoding placed after a prefix gives back the encoded
/// value and consumes exactly the encoding.
proof fn lemma_varint_round_trip_at(v: nat, prefix: Seq<u8>)
    ensures
        varint_read_spec(prefix + varint(v), prefix.len() as int) == Some(
            (v, (prefix.len() + varint(v).len()) as int),
        ),
    decreases v,
{
    let b = prefix + varint(v);
    let pos = prefix.len() as int;
    if v < 128 {
        assert(b[pos] == v as u8);
    } else {
        let head = (128 + v % 128) as u8;
        assert(b[pos] == head);
        lemma_varint_round_trip_at(v / 128, prefix + seq![head]);
        assert(prefix + seq![head] + varint(v / 128) =~= b);
        assert((b[pos] - 128) as nat + 128 * (v / 128) == v);
    }
}

/// The mathematical value of a [`RegisterData`]: its address, resolution,
/// and payload bytes (`None` marks a read request).
pub ghost struct RegisterDataView {
    pub address: RegisterAddr,
    pub resolution: Resolution,
    pub data: Option<Seq<u8>>,
}

/// The fundamental transferable unit: one register operation. `data: None`
/// asks the device to report the register at `resolution`; `data: Some(_)`
/// carries bytes to write, or bytes the device reported back.
#[derive(Debug)]
pub struct RegisterData {
    /// The [`RegisterAddr`] of the register.
    pub address: RegisterAddr,
    /// The [`Resolution`] of the data.
    pub resolution: Resolution,
    /// The payload to write, or `None` for a read request.
    pub data: Option<Vec<u8>>,
}

impl View for RegisterData {
    type V = RegisterDataView;

    open spec fn view(&self) -> RegisterDataView {
        RegisterDataView {
            address: self.address,
            resolution: self.resolution,
            data: match self.data {
                Some(v) => Some(v@),
                None => None,
            },
        }
    }
}

/// The views of a run of registers, in order.
pub open spec fn views_of(s: Seq<RegisterData>) -> Seq<RegisterDataView> {
    s.map_values(|r: RegisterData| r@)
}

/// The subframe kind a register travels under, derived from its resolution
/// and direction: a payload means a write, no payload means a read.
pub open spec fn spec_frame_register(res: Resolution, read: bool) -> FrameRegisters {
    match (res, read) {
        (Resolution::Int8, true) => FrameRegisters::ReadInt8,
        (Resolution::Int16, true) => FrameRegisters::ReadInt16,
        (Resolution::Int32, true) => FrameRegisters::ReadInt32,
        (Resolution::Float, true) => FrameRegisters::ReadF32,
        (Resolution::Int8, false) => FrameRegisters::WriteInt8,
        (Resolution::Int16, false) => FrameRegisters::WriteInt16,
        (Resolution::Int32, false) => FrameRegisters::WriteInt32,
        (Resolution::Float, false) => FrameRegisters::WriteF32,
    }
}

/// The subframe kind of one register view.
pub open spec fn kind_of_reg(rv: RegisterDataView) -> FrameRegisters {
    spec_frame_register(rv.resolution, rv.data is None)
}

/// Copies a byte vector.
pub(crate) fn clone_bytes(v: &Vec<u8>) -> (r: Vec<u8>)
    ensures
        r@ == v@,
{
    let mut r: Vec<u8> = Vec::new();
    let mut i: usize = 0;
    while i < v.len()
        invariant
            i <= v@.len(),
            r@ == v@.take(i as int),
        decreases v@.len() - i,
    {
        r.push(v[i]);
        i = i + 1;
        proof {
            assert(r@ =~= v@.take(i as int));
        }
    }
    proof {
        assert(r@ =~= v@);
    }
    r
}

/// Copies a byte slice into an owned vector.
pub(crate) fn bytes_to_vec(b: &[u8]) -> (r: Vec<u8>)
    ensures
        r@ == b@,
{
    let mut r: Vec<u8> = Vec::new();
    let mut i: usize = 0;
    while i < b.len()
        invariant
            i <= b@.len(),
            r@ == b@.take(i as int),
        decreases b@.len() - i,
    {
        r.push(b[i]);
        i = i + 1;
        proof {
            assert(r@ =~= b@.take(i as int));
        }
    }
    proof {
        assert(r@ =~= b@);
    }
    r
}


/// Byte-for-byte equality of two payloads.
pub(crate) fn bytes_eq(a: &Vec<u8>, b: &Vec<u8>) -> (r: bool)
    ensures
        r == (a@ == b@),
{
    if a.len() != b.len() {
        return false;
    }
    let mut i: usize = 0;
    while i < a.len()
        invariant
            i <= a@.len(),
            a@.len() == b@.len(),
            forall|j: int| 0 <= j < i ==> a@[j] == b@[j],
        decreases a@.len() - i,
    {
        if a[i] != b[i] {
            return false;
        }
        i = i + 1;
    }
    proof {
        assert(a@ =~= b@);
    }
    true
}

impl PartialEq for RegisterData {
    /// Two register operations are equal when their views are: same
    /// address, same resolution, and byte-for-byte the same payload.
    fn eq(&self, other: &Self) -> (r: bool) {
        let fields_eq = self.address == other.address && self.resolution == other.resolution;
        if !fields_eq {
            return false;
        }
        match (&self.data, &other.data) {
            (Some(a), Some(b)) => bytes_eq(a, b),
            (None, None) => true,
            _ => false,
        }
    }
}

impl vstd::std_specs::cmp::PartialEqSpecImpl for RegisterData {
    open spec fn obeys_eq_spec() -> bool {
        true
    }

    open spec fn eq_spec(&self, other: &Self) -> bool {
        self@ == other@
    }
}

impl Clone for RegisterData {
    fn clone(&self) -> (r: Self)
        ensures
            r@ == self@,
    {
        RegisterData {
            address: self.address,
            resolution: self.resolution,
            data: match &self.data {
                Some(v) => Some(clone_bytes(v)),
                None => None,
            },
        }
    }
}

impl RegisterData {
    /// A read request for `addr` at resolution `res`.
    pub fn read(addr: RegisterAddr, res: Resolution) -> (r: RegisterData)
        ensures
            r@ == (RegisterDataView { address: addr, resolution: res, data: None }),
    {
        RegisterData { address: addr, resolution: res, data: None }
    }

    /// A write of the signed integer `v` to `addr` at resolution `res`.
    pub fn write_int(addr: RegisterAddr, v: i32, res: Resolution) -> (r: Result<
        RegisterData,
        RegisterError,
    >)
        ensures
            r matches Ok(rd) ==> spec_encode_int(v as int, res) matches Ok(b) && rd@ == (
            RegisterDataView { address: addr, resolution: res, data: Some(b) }),
            r matches Err(e) ==> spec_encode_int(v as int, res) == Err::<Seq<u8>, RegisterError>(
                e,
            ),
    {
        match encode_int(v, res) {
            Ok(b) => Ok(RegisterData { address: addr, resolution: res, data: Some(b) }),
            Err(e) => Err(e),
        }
    }

    /// A write of the unsigned integer `v` to `addr` at resolution `res`.
    pub fn write_uint(addr: RegisterAddr, v: u32, res: Resolution) -> (r: Result<
        RegisterData,
        RegisterError,
    >)
        ensures
            r matches Ok(rd) ==> spec_encode_uint(v as int, res) matches Ok(b) && rd@ == (
            RegisterDataView { address: addr, resolution: res, data: Some(b) }),
            r matches Err(e) ==> spec_encode_uint(v as int, res) == Err::<Seq<u8>, RegisterError>(
                e,
            ),
    {
        match encode_uint(v, res) {
            Ok(b) => Ok(RegisterData { address: addr, resolution: res, data: Some(b) }),
            Err(e) => Err(e),
        }
    }

    /// Rebuilds one register from a numeric address and its payload bytes,
    /// failing with `InvalidAddress` when the address names no register.
    pub fn from_bytes(addr: u16, bytes: &[u8], resolution: Resolution) -> (r: Result<
        RegisterData,
        RegisterError,
    >)
        ensures
            RegisterAddr::spec_from_u16(addr) matches Some(a) ==> (r matches Ok(rd) && rd@ == (
            RegisterDataView { address: a, resolution, data: Some(bytes@) })),
            RegisterAddr::spec_from_u16(addr) is None ==> (r matches Err(e) && e
                == RegisterError::InvalidAddress),
    {
        match RegisterAddr::from_u16(addr) {
            Some(a) => Ok(
                RegisterData { address: a, resolution, data: Some(bytes_to_vec(bytes)) },
            ),
            None => Err(RegisterError::InvalidAddress),
        }
    }

    /// The payload decoded as a sign-extended integer; `NoData` when this is
    /// a read request with no payload.
    pub fn as_int(&self) -> (r: Result<i32, RegisterError>)
        ensures
            self@.data is None ==> (r matches Err(e) && e == RegisterError::NoData),
            self@.data matches Some(b) ==> match r {
                Ok(v) => spec_decode_signed(b, self@.resolution) == Ok::<int, RegisterError>(
                    v as int,
                ),
                Err(e) => spec_decode_signed(b, self@.resolution) == Err::<int, RegisterError>(e),
            },
    {
        match &self.data {
            Some(b) => decode_signed(b.as_slice(), self.resolution),
            None => Err(RegisterError::NoData),
        }
    }
}

/// What decoding a payload as a [`Modes`] value returns: the unsigned
/// reading of the payload must name a known variant.
pub open spec fn spec_mode_from_bytes(b: Seq<u8>, res: Resolution) -> Result<
    Modes,
    RegisterError,
> {
    match spec_decode_unsigned(b, res) {
        Err(e) => Err(e),
        Ok(u) => if 0 <= u <= 255 {
            match Modes::spec_from_u8(u as u8) {
                Some(m) => Ok(m),
                None => Err(RegisterError::InvalidData),
            }
        } else {
            Err(RegisterError::InvalidData)
        },
    }
}

/// The Mode register at address `RegisterAddr::Mode`: the device's
/// operating mode, as a [`Modes`] value.
pub struct Mode;

impl Mode {
    /// Writes the register at its default resolution (`Int8`).
    pub fn write(value: Modes) -> (r: Result<RegisterData, RegisterError>)
        ensures
            r matches Ok(rd) && rd@ == (RegisterDataView {
                address: RegisterAddr::Mode,
                resolution: Resolution::Int8,
                data: Some(int_payload(value.spec_value() as int, Resolution::Int8)),
            }),
    {
        Self::write_with_resolution(value, Resolution::Int8)
    }

    /// Writes the register at the given resolution; integer values cannot
    /// travel at float resolution.
    pub fn write_with_resolution(value: Modes, res: Resolution) -> (r: Result<
        RegisterData,
        RegisterError,
    >)
        ensures
            res != Resolution::Float ==> (r matches Ok(rd) && rd@ == (RegisterDataView {
                address: RegisterAddr::Mode,
                resolution: res,
                data: Some(int_payload(value.spec_value() as int, res)),
            })),
            res == Resolution::Float ==> (r matches Err(e) && e == RegisterError::IntAsFloat),
    {
        RegisterData::write_int(RegisterAddr::Mode, value.value() as i32, res)
    }

    /// A read request at the register's default resolution (`Int8`).
    pub fn read() -> (r: RegisterData)
        ensures
            r@ == (RegisterDataView {
                address: RegisterAddr::Mode,
                resolution: Resolution::Int8,
                data: None,
            }),
    {
        RegisterData::read(RegisterAddr::Mode, Resolution::Int8)
    }

    /// A read request at the given resolution.
    pub fn read_with_resolution(res: Resolution) -> (r: RegisterData)
        ensures
            r@ == (RegisterDataView {
                address: RegisterAddr::Mode,
                resolution: res,
                data: None,
            }),
    {
        RegisterData::read(RegisterAddr::Mode, res)
    }

    /// Decodes a payload into a [`Modes`] value, as
    /// [`spec_mode_from_bytes`] reads it.
    pub fn from_bytes(bytes: &[u8], resolution: Resolution) -> (r: Result<Modes, RegisterError>)
        ensures
            r == spec_mode_from_bytes(bytes@, resolution),
    {
        match decode_unsigned(bytes, resolution) {
            Err(e) => Err(e),
            Ok(u) => if u <= 255 {
                match Modes::from_u8(u as u8) {
                    Some(m) => Ok(m),
                    None => Err(RegisterError::InvalidData),
                }
            } else {
                Err(RegisterError::InvalidData)
            },
        }
    }
}

/// What decoding a payload as a [`Faults`] value returns: the unsigned
/// reading of the payload must name a known variant.
pub open spec fn spec_fault_from_bytes(b: Seq<u8>, res: Resolution) -> Result<
    Faults,
    RegisterError,
> {
    match spec_decode_unsigned(b, res) {
        Err(e) => Err(e),
        Ok(u) => if 0 <= u <= 255 {
            match Faults::spec_from_u8(u as u8) {
                Some(m) => Ok(m),
                None => Err(RegisterError::InvalidData),
            }
        } else {
            Err(RegisterError::InvalidData)
        },
    }
}

/// The Fault register at address `RegisterAddr::Fault`: the device's
/// fault code, as a [`Faults`] value.
pub struct Fault;

impl Fault {
    /// Writes the register at its default resolution (`Int8`).
    pub fn write(value: Faults) -> (r: Result<RegisterData, RegisterError>)
        ensures
            r matches Ok(rd) && rd@ == (RegisterDataView {
                address: RegisterAddr::Fault,
                resolution: Resolution::Int8,
                data: Some(int_payload(value.spec_value() as int, Resolution::Int8)),
            }),
    {
        Self::write_with_resolution(value, Resolution::Int8)
    }

    /// Writes the register at the given resolution; integer values cannot
    /// travel at float resolution.
    pub fn write_with_resolution(value: Faults, res: Resolution) -> (r: Result<
        RegisterData,
        RegisterError,
    >)
        ensures
            res != Resolution::Float ==> (r matches Ok(rd) && rd@ == (RegisterDataView {
                address: RegisterAddr::Fault,
                resolution: res,
                data: Some(int_payload(value.spec_value() as int, res)),
            })),
            res == Resolution::Float ==> (r matches Err(e) && e == RegisterError::IntAsFloat),
    {
        RegisterData::write_int(RegisterAddr::Fault, value.value() as i32, res)
    }

    /// A read request at the register's default resolution (`Int8`).
    pub fn read() -> (r: RegisterData)
        ensures
            r@ == (RegisterDataView {
                address: RegisterAddr::Fault,
                resolution: Resolution::Int8,
                data: None,
            }),
    {
        RegisterData::read(RegisterAddr::Fault, Resolution::Int8)
    }

    /// A read request at the given resolution.
    pub fn read_with_resolution(res: Resolution) -> (r: RegisterData)
        ensures
            r@ == (RegisterDataView {
                address: RegisterAddr::Fault,
                resolution: res,
                data: None,
            }),
    {
        RegisterData::read(RegisterAddr::Fault, res)
    }

    /// Decodes a payload into a [`Faults`] value, as
    /// [`spec_fault_from_bytes`] reads it.
    pub fn from_bytes(bytes: &[u8], resolution: Resolution) -> (r: Result<Faults, RegisterError>)
        ensures
            r == spec_fault_from_bytes(bytes@, resolution),
    {
        match decode_unsigned(bytes, resolution) {
            Err(e) => Err(e),
            Ok(u) => if u <= 255 {
                match Faults::from_u8(u as u8) {
                    Some(m) => Ok(m),
                    None => Err(RegisterError::InvalidData),
                }
            } else {
                Err(RegisterError::InvalidData)
            },
        }
    }
}

/// What decoding a payload as a [`HomeStates`] value returns: the unsigned
/// reading of the payload must name a known variant.
pub open spec fn spec_homestate_from_bytes(b: Seq<u8>, res: Resolution) -> Result<
    HomeStates,
    RegisterError,
> {
    match spec_decode_unsigned(b, res) {
        Err(e) => Err(e),
        Ok(u) => if 0 <= u <= 255 {
            match HomeStates::spec_from_u8(u as u8) {
                Some(m) => Ok(m),
                None => Err(RegisterError::InvalidData),
            }
        } else {
            Err(RegisterError::InvalidData)
        },
    }
}

/// The HomeState register at address `RegisterAddr::HomeState`: the device's
/// homing state, as a [`HomeStates`] value.
pub struct HomeState;

impl HomeState {
    /// Writes the register at its default resolution (`Int8`).
    pub fn write(value: HomeStates) -> (r: Result<RegisterData, RegisterError>)
        ensures
            r matches Ok(rd) && rd@ == (RegisterDataView {
                address: RegisterAddr::HomeState,
                resolution: Resolution::Int8,
                data: Some(int_payload(value.spec_value() as int, Resolution::Int8)),
            }),
    {
        Self::write_with_resolution(value, Resolution::Int8)
    }

    /// Writes the register at the given resolution; integer values cannot
    /// travel at float resolution.
    pub fn write_with_resolution(value: HomeStates, res: Resolution) -> (r: Result<
        RegisterData,
        RegisterError,
    >)
        ensures
            res != Resolution::Float ==> (r matches Ok(rd) && rd@ == (RegisterDataView {
                address: RegisterAddr::HomeState,
                resolution: res,
                data: Some(int_payload(value.spec_value() as int, res)),
            })),
            res == Resolution::Float ==> (r matches Err(e) && e == RegisterError::IntAsFloat),
    {
        RegisterData::write_int(RegisterAddr::HomeState, value.value() as i32, res)
    }

    /// A read request at the register's default resolution (`Int8`).
    pub fn read() -> (r: RegisterData)
        ensures
            r@ == (RegisterDataView {
                address: RegisterAddr::HomeState,
                resolution: Resolution::Int8,
                data: None,
            }),
    {
        RegisterData::read(RegisterAddr::HomeState, Resolution::Int8)
    }

    /// A read request at the given resolution.
    pub fn read_with_resolution(res: Resolution) -> (r: RegisterData)
        ensures
            r@ == (RegisterDataView {
                address: RegisterAddr::HomeState,
                resolution: res,
                data: None,
            }),
    {
        RegisterData::read(RegisterAddr::HomeState, res)
    }

    /// Decodes a payload into a [`HomeStates`] value, as
    /// [`spec_homestate_from_bytes`] reads it.
    pub fn from_bytes(bytes: &[u8], resolution: Resolution) -> (r: Result<HomeStates, RegisterError>)
        ensures
            r == spec_homestate_from_bytes(bytes@, resolution),
    {
        match decode_unsigned(bytes, resolution) {
            Err(e) => Err(e),
            Ok(u) => if u <= 255 {
                match HomeStates::from_u8(u as u8) {
                    Some(m) => Ok(m),
                    None => Err(RegisterError::InvalidData),
                }
            } else {
                Err(RegisterError::InvalidData)
            },
        }
    }
}

/// The MillisecondCounter register: a signed millisecond tick count.
pub struct MillisecondCounter;

impl MillisecondCounter {
    /// Writes the counter at its default resolution (`Int32`).
    pub fn write(v: i32) -> (r: Result<RegisterData, RegisterError>)
        ensures
            r matches Ok(rd) && rd@ == (RegisterDataView {
                address: RegisterAddr::MillisecondCounter,
                resolution: Resolution::Int32,
                data: Some(int_payload(v as int, Resolution::Int32)),
            }),
    {
        Self::write_with_resolution(v, Resolution::Int32)
    }

    /// Writes the counter at the given resolution; narrowing that loses
    /// magnitude fails with `Overflow`.
    pub fn write_with_resolution(v: i32, res: Resolution) -> (r: Result<
        RegisterData,
        RegisterError,
    >)
        ensures
            r matches Ok(rd) ==> spec_encode_int(v as int, res) matches Ok(b) && rd@ == (
            RegisterDataView {
                address: RegisterAddr::MillisecondCounter,
                resolution: res,
                data: Some(b),
            }),
            r matches Err(e) ==> spec_encode_int(v as int, res) == Err::<Seq<u8>, RegisterError>(
                e,
            ),
    {
        RegisterData::write_int(RegisterAddr::MillisecondCounter, v, res)
    }

    /// A read request at the register's default resolution (`Int32`).
    pub fn read() -> (r: RegisterData)
        ensures
            r@ == (RegisterDataView {
                address: RegisterAddr::MillisecondCounter,
                resolution: Resolution::Int32,
                data: None,
            }),
    {
        RegisterData::read(RegisterAddr::MillisecondCounter, Resolution::Int32)
    }

    /// A read request at the given resolution.
    pub fn read_with_resolution(res: Resolution) -> (r: RegisterData)
        ensures
            r@ == (RegisterDataView {
                address: RegisterAddr::MillisecondCounter,
                resolution: res,
                data: None,
            }),
    {
        RegisterData::read(RegisterAddr::MillisecondCounter, res)
    }

    /// Decodes a payload into the counter value, as [`spec_decode_signed`]
    /// reads it.
    pub fn from_bytes(bytes: &[u8], resolution: Resolution) -> (r: Result<i32, RegisterError>)
        ensures
            r matches Ok(v) ==> spec_decode_signed(bytes@, resolution) == Ok::<
                int,
                RegisterError,
            >(v as int),
            r matches Err(e) ==> spec_decode_signed(bytes@, resolution) == Err::<
                int,
                RegisterError,
            >(e),
    {
        decode_signed(bytes, resolution)
    }
}

/// The Position register: the measured shaft position, a physical-unit value carried on the
/// wire as a scaled integer or a raw float. This crate builds its read
/// requests; the payload scaling is fixed-point arithmetic on IEEE-754
/// values and lives with the caller.
pub struct Position;

impl Position {
    /// A read request at the register's default resolution (`Float`).
    pub fn read() -> (r: RegisterData)
        ensures
            r@ == (RegisterDataView {
                address: RegisterAddr::Position,
                resolution: Resolution::Float,
                data: None,
            }),
    {
        RegisterData::read(RegisterAddr::Position, Resolution::Float)
    }

    /// A read request at the given resolution.
    pub fn read_with_resolution(res: Resolution) -> (r: RegisterData)
        ensures
            r@ == (RegisterDataView {
                address: RegisterAddr::Position,
                resolution: res,
                data: None,
            }),
    {
        RegisterData::read(RegisterAddr::Position, res)
    }
}

/// The Velocity register: the measured shaft velocity, a physical-unit value carried on the
/// wire as a scaled integer or a raw float. This crate builds its read
/// requests; the payload scaling is fixed-point arithmetic on IEEE-754
/// values and lives with the caller.
pub struct Velocity;

impl Velocity {
    /// A read request at the register's default resolution (`Float`).
    pub fn read() -> (r: RegisterData)
        ensures
            r@ == (RegisterDataView {
                address: RegisterAddr::Velocity,
                resolution: Resolution::Float,
                data: None,
            }),
    {
        RegisterData::read(RegisterAddr::Velocity, Resolution::Float)
    }

    /// A read request at the given resolution.
    pub fn read_with_resolution(res: Resolution) -> (r: RegisterData)
        ensures
            r@ == (RegisterDataView {
                address: RegisterAddr::Velocity,
                resolution: res,
                data: None,
            }),
    {
        RegisterData::read(RegisterAddr::Velocity, res)
    }
}

/// The Torque register: the measured output torque, a physical-unit value carried on the
/// wire as a scaled integer or a raw float. This crate builds its read
/// requests; the payload scaling is fixed-point arithmetic on IEEE-754
/// values and lives with the caller.
pub struct Torque;

impl Torque {
    /// A read request at the register's default resolution (`Float`).
    pub fn read() -> (r: RegisterData)
        ensures
            r@ == (RegisterDataView {
                address: RegisterAddr::Torque,
                resolution: Resolution::Float,
                data: None,
            }),
    {
        RegisterData::read(RegisterAddr::Torque, Resolution::Float)
    }

    /// A read request at the given resolution.
    pub fn read_with_resolution(res: Resolution) -> (r: RegisterData)
        ensures
            r@ == (RegisterDataView {
                address: RegisterAddr::Torque,
                resolution: res,
                data: None,
            }),
    {
        RegisterData::read(RegisterAddr::Torque, res)
    }
}

/// The QCurrent register: the measured q-phase current, a physical-unit value carried on the
/// wire as a scaled integer or a raw float. This crate builds its read
/// requests; the payload scaling is fixed-point arithmetic on IEEE-754
/// values and lives with the caller.
pub struct QCurrent;

impl QCurrent {
    /// A read request at the register's default resolution (`Float`).
    pub fn read() -> (r: RegisterData)
        ensures
            r@ == (RegisterDataView {
                address: RegisterAddr::QCurrent,
                resolution: Resolution::Float,
                data: None,
            }),
    {
        RegisterData::read(RegisterAddr::QCurrent, Resolution::Float)
    }

    /// A read request at the given resolution.
    pub fn read_with_resolution(res: Resolution) -> (r: RegisterData)
        ensures
            r@ == (RegisterDataView {
                address: RegisterAddr::QCurrent,
                resolution: res,
                data: None,
            }),
    {
        RegisterData::read(RegisterAddr::QCurrent, res)
    }
}

/// The DCurrent register: the measured d-phase current, a physical-unit value carried on the
/// wire as a scaled integer or a raw float. This crate builds its read
/// requests; the payload scaling is fixed-point arithmetic on IEEE-754
/// values and lives with the caller.
pub struct DCurrent;

impl DCurrent {
    /// A read request at the register's default resolution (`Float`).
    pub fn read() -> (r: RegisterData)
        ensures
            r@ == (RegisterDataView {
                address: RegisterAddr::DCurrent,
                resolution: Resolution::Float,
                data: None,
            }),
    {
        RegisterData::read(RegisterAddr::DCurrent, Resolution::Float)
    }

    /// A read request at the given resolution.
    pub fn read_with_resolution(res: Resolution) -> (r: RegisterData)
        ensures
            r@ == (RegisterDataView {
                address: RegisterAddr::DCurrent,
                resolution: res,
                data: None,
            }),
    {
        RegisterData::read(RegisterAddr::DCurrent, res)
    }
}

/// The AbsPosition register: the absolute encoder position, a physical-unit value carried on the
/// wire as a scaled integer or a raw float. This crate builds its read
/// requests; the payload scaling is fixed-point arithmetic on IEEE-754
/// values and lives with the caller.
pub struct AbsPosition;

impl AbsPosition {
    /// A read request at the register's default resolution (`Float`).
    pub fn read() -> (r: RegisterData)
        ensures
            r@ == (RegisterDataView {
                address: RegisterAddr::AbsPosition,
                resolution: Resolution::Float,
                data: None,
            }),
    {
        RegisterData::read(RegisterAddr::AbsPosition, Resolution::Float)
    }

    /// A read request at the given resolution.
    pub fn read_with_resolution(res: Resolution) -> (r: RegisterData)
        ensures
            r@ == (RegisterDataView {
                address: RegisterAddr::AbsPosition,
                resolution: res,
                data: None,
            }),
    {
        RegisterData::read(RegisterAddr::AbsPosition, res)
    }
}

/// The MotorTemperature register: the motor temperature, a physical-unit value carried on the
/// wire as a scaled integer or a raw float. This crate builds its read
/// requests; the payload scaling is fixed-point arithmetic on IEEE-754
/// values and lives with the caller.
pub struct MotorTemperature;

impl MotorTemperature {
    /// A read request at the register's default resolution (`Float`).
    pub fn read() -> (r: RegisterData)
        ensures
            r@ == (RegisterDataView {
                address: RegisterAddr::MotorTemperature,
                resolution: Resolution::Float,
                data: None,
            }),
    {
        RegisterData::read(RegisterAddr::MotorTemperature, Resolution::Float)
    }

    /// A read request at the given resolution.
    pub fn read_with_resolution(res: Resolution) -> (r: RegisterData)
        ensures
            r@ == (RegisterDataView {
                address: RegisterAddr::MotorTemperature,
                resolution: res,
                data: None,
            }),
    {
        RegisterData::read(RegisterAddr::MotorTemperature, res)
    }
}

/// The Voltage register: the bus voltage, a physical-unit value carried on the
/// wire as a scaled integer or a raw float. This crate builds its read
/// requests; the payload scaling is fixed-point arithmetic on IEEE-754
/// values and lives with the caller.
pub struct Voltage;

impl Voltage {
    /// A read request at the register's default resolution (`Float`).
    pub fn read() -> (r: RegisterData)
        ensures
            r@ == (RegisterDataView {
                address: RegisterAddr::Voltage,
                resolution: Resolution::Float,
                data: None,
            }),
    {
        RegisterData::read(RegisterAddr::Voltage, Resolution::Float)
    }

    /// A read request at the given resolution.
    pub fn read_with_resolution(res: Resolution) -> (r: RegisterData)
        ensures
            r@ == (RegisterDataView {
                address: RegisterAddr::Voltage,
                resolution: res,
                data: None,
            }),
    {
        RegisterData::read(RegisterAddr::Voltage, res)
    }
}

/// The Temperature register: the board temperature, a physical-unit value carried on the
/// wire as a scaled integer or a raw float. This crate builds its read
/// requests; the payload scaling is fixed-point arithmetic on IEEE-754
/// values and lives with the caller.
pub struct Temperature;

impl Temperature {
    /// A read request at the register's default resolution (`Float`).
    pub fn read() -> (r: RegisterData)
        ensures
            r@ == (RegisterDataView {
                address: RegisterAddr::Temperature,
                resolution: Resolution::Float,
                data: None,
            }),
    {
        RegisterData::read(RegisterAddr::Temperature, Resolution::Float)
    }

    /// A read request at the given resolution.
    pub fn read_with_resolution(res: Resolution) -> (r: RegisterData)
        ensures
            r@ == (RegisterDataView {
                address: RegisterAddr::Temperature,
                resolution: res,
                data: None,
            }),
    {
        RegisterData::read(RegisterAddr::Temperature, res)
    }
}

/// The CommandPosition register: the commanded position, a physical-unit value carried on the
/// wire as a scaled integer or a raw float. This crate builds its read
/// requests; the payload scaling is fixed-point arithmetic on IEEE-754
/// values and lives with the caller.
pub struct CommandPosition;

impl CommandPosition {
    /// A read request at the register's default resolution (`Float`).
    pub fn read() -> (r: RegisterData)
        ensures
            r@ == (RegisterDataView {
                address: RegisterAddr::CommandPosition,
                resolution: Resolution::Float,
                data: None,
            }),
    {
        RegisterData::read(RegisterAddr::CommandPosition, Resolution::Float)
    }

    /// A read request at the given resolution.
    pub fn read_with_resolution(res: Resolution) -> (r: RegisterData)
        ensures
            r@ == (RegisterDataView {
                address: RegisterAddr::CommandPosition,
                resolution: res,
                data: None,
            }),
    {
        RegisterData::read(RegisterAddr::CommandPosition, res)
    }
}

/// The CommandVelocity register: the commanded velocity, a physical-unit value carried on the
/// wire as a scaled integer or a raw float. This crate builds its read
/// requests; the payload scaling is fixed-point arithmetic on IEEE-754
/// values and lives with the caller.
pub struct CommandVelocity;

impl CommandVelocity {
    /// A read request at the register's default resolution (`Float`).
    pub fn read() -> (r: RegisterData)
        ensures
            r@ == (RegisterDataView {
                address: RegisterAddr::CommandVelocity,
                resolution: Resolution::Float,
                data: None,
            }),
    {
        RegisterData::read(RegisterAddr::CommandVelocity, Resolution::Float)
    }

    /// A read request at the given resolution.
    pub fn read_with_resolution(res: Resolution) -> (r: RegisterData)
        ensures
            r@ == (RegisterDataView {
                address: RegisterAddr::CommandVelocity,
                resolution: res,
                data: None,
            }),
    {
        RegisterData::read(RegisterAddr::CommandVelocity, res)
    }
}

/// The CommandFeedforwardTorque register: the commanded feedforward torque, a physical-unit value carried on the
/// wire as a scaled integer or a raw float. This crate builds its read
/// requests; the payload scaling is fixed-point arithmetic on IEEE-754
/// values and lives with the caller.
pub struct CommandFeedforwardTorque;

impl CommandFeedforwardTorque {
    /// A read request at the register's default resolution (`Float`).
    pub fn read() -> (r: RegisterData)
        ensures
            r@ == (RegisterDataView {
                address: RegisterAddr::CommandFeedforwardTorque,
                resolution: Resolution::Float,
                data: None,
            }),
    {
        RegisterData::read(RegisterAddr::CommandFeedforwardTorque, Resolution::Float)
    }

    /// A read request at the given resolution.
    pub fn read_with_resolution(res: Resolution) -> (r: RegisterData)
        ensures
            r@ == (RegisterDataView {
                address: RegisterAddr::CommandFeedforwardTorque,
                resolution: res,
                data: None,
            }),
    {
        RegisterData::read(RegisterAddr::CommandFeedforwardTorque, res)
    }
}

} // verus!
