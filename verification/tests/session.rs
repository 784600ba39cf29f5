//! Session behaviour over a scripted transport: query resolution, wire
//! bytes, arbitration ids, and the response path.

use moteus::frame::{Query, QueryType, Stop};
use moteus::registers::{Mode, Modes, RegisterAddr, RegisterData};
use moteus::{CanFdFrame, Controller, Error, Frame, Resolution, Transport};
use std::cell::RefCell;
use std::rc::Rc;

/// A transport that records what is transmitted and plays back scripted
/// responses.
struct ScriptedTransport {
    sent: Rc<RefCell<Vec<CanFdFrame>>>,
    responses: Rc<RefCell<Vec<CanFdFrame>>>,
}

impl Transport for ScriptedTransport {
    type Error = &'static str;

    fn transmit(&mut self, frame: CanFdFrame) -> Result<(), Self::Error> {
        self.sent.borrow_mut().push(frame);
        Ok(())
    }

    fn receive(&mut self) -> Result<CanFdFrame, Self::Error> {
        self.responses.borrow_mut().pop().ok_or("no response")
    }
}

fn scripted(
    responses: Vec<Vec<u8>>,
) -> (ScriptedTransport, Rc<RefCell<Vec<CanFdFrame>>>) {
    let sent = Rc::new(RefCell::new(Vec::new()));
    let responses = responses
        .into_iter()
        .map(|data| CanFdFrame {
            arbitration_id: 0x8001,
            data,
            brs: true,
        })
        .collect();
    (
        ScriptedTransport {
            sent: sent.clone(),
            responses: Rc::new(RefCell::new(responses)),
        },
        sent,
    )
}

#[test]
fn test_default_query_wire_bytes() {
    // The standard default query: mode, voltage, temperature and fault at
    // Int8 (two runs), position, velocity and torque at Float.
    let (transport, sent) = scripted(vec![vec![0x50]]);
    let mut controller = Controller::new(transport, false);
    let response = controller.query(1, QueryType::Default).unwrap();
    assert_eq!(response.registers.len(), 0);

    let sent = sent.borrow();
    assert_eq!(sent.len(), 1);
    assert_eq!(sent[0].arbitration_id, 0x8001);
    assert!(sent[0].brs);
    assert_eq!(
        sent[0].data,
        vec![0x11, 0x00, 0x13, 0x0D, 0x1F, 0x01]
    );
}

#[test]
fn test_query_response_parsing() {
    // A reply carrying the mode register set to Position.
    let (transport, _sent) = scripted(vec![vec![0x21, 0x00, 0x0A]]);
    let mut controller = Controller::new(transport, false);
    let response = controller.query(1, QueryType::Default).unwrap();
    let mode = response.get(RegisterAddr::Mode).unwrap();
    assert_eq!(
        Mode::from_bytes(mode.data.as_ref().unwrap(), mode.resolution).unwrap(),
        Modes::Position
    );
}

#[test]
fn test_send_no_response_stop() {
    let (transport, sent) = scripted(vec![]);
    let mut controller = Controller::new(transport, true);
    controller.send_no_response(5, Stop.to_builder()).unwrap();

    let sent = sent.borrow();
    assert_eq!(sent.len(), 1);
    // No response expected: the high bit stays clear.
    assert_eq!(sent[0].arbitration_id, 5);
    assert!(!sent[0].brs);
    assert_eq!(sent[0].data, vec![0x01, 0x00, 0x00]);
}

#[test]
fn test_custom_query_ignores_default() {
    let (transport, sent) = scripted(vec![vec![0x50]]);
    let mut controller = Controller::new(transport, false);
    let mut custom = Frame::builder();
    custom.add(RegisterData::read(RegisterAddr::Fault, Resolution::Int8));
    controller.query(1, QueryType::Custom(custom)).unwrap();

    let sent = sent.borrow();
    assert_eq!(sent[0].data, vec![0x11, 0x0F]);
}

#[test]
fn test_default_and_extra_query() {
    // The extra rides along with the default: reading the home state at
    // 0x0C extends the 0x0D..0x0F run downward.
    let (transport, sent) = scripted(vec![vec![0x50]]);
    let mut controller = Controller::new(transport, false);
    let mut extra = Frame::builder();
    extra.add(RegisterData::read(RegisterAddr::HomeState, Resolution::Int8));
    controller.query(1, QueryType::DefaultAnd(extra)).unwrap();

    let sent = sent.borrow();
    assert_eq!(
        sent[0].data,
        vec![0x11, 0x00, 0x10, 0x04, 0x0C, 0x1F, 0x01]
    );
}

#[test]
fn test_send_with_query_command_wins_over_default() {
    // The command writes the mode register; the default query also reads
    // it. The command's write must survive the merge (the more specific
    // argument wins), so the sent frame carries a write subframe.
    let (transport, sent) = scripted(vec![vec![0x50]]);
    let mut controller = Controller::with_query(transport, false, {
        let mut b = Frame::builder();
        b.add(RegisterData::read(RegisterAddr::Rezero, Resolution::Int8));
        b
    });
    let mut command = Frame::builder();
    command.add(RegisterData::write_int(RegisterAddr::Rezero, 1, Resolution::Int8).unwrap());
    controller
        .send_with_query(1, command, QueryType::Default)
        .unwrap();

    let sent = sent.borrow();
    // One write subframe (kind 0x00) — the read of the same register at
    // the same resolution lives in a different bucket, so both appear.
    assert_eq!(sent[0].data, vec![0x01, 0xB0, 0x02, 0x01, 0x11, 0xB0, 0x02]);
}

#[test]
fn test_transport_error_surfaces() {
    let (transport, _sent) = scripted(vec![]);
    let mut controller = Controller::new(transport, false);
    let r = controller.query(1, QueryType::Default);
    assert!(matches!(r, Err(Error::Transport("no response"))));
}

#[test]
fn test_malformed_response_is_parse_error() {
    let (transport, _sent) = scripted(vec![vec![0x34]]);
    let mut controller = Controller::new(transport, false);
    let r = controller.query(1, QueryType::Default);
    assert!(matches!(r, Err(Error::FrameParse(_))));
}

#[test]
fn test_oversized_frame_rejected() {
    // Eleven Int32 writes and eleven Int16 writes serialize past the
    // 64-byte CAN-FD payload limit.
    let (transport, sent) = scripted(vec![]);
    let mut controller = Controller::new(transport, false);
    let mut builder = Frame::builder();
    let command_addrs = [
        RegisterAddr::CommandPosition,
        RegisterAddr::CommandVelocity,
        RegisterAddr::CommandFeedforwardTorque,
        RegisterAddr::CommandKpScale,
        RegisterAddr::CommandKdScale,
        RegisterAddr::CommandPositionMaxTorque,
        RegisterAddr::CommandStopPosition,
        RegisterAddr::CommandTimeout,
        RegisterAddr::VelocityLimit,
        RegisterAddr::AccelerationLimit,
        RegisterAddr::FixedVoltageOverride,
    ];
    for addr in command_addrs {
        builder.add(RegisterData::write_int(addr, 1, Resolution::Int32).unwrap());
        builder.add(RegisterData::write_int(addr, 1, Resolution::Int16).unwrap());
    }
    let r = controller.send_no_response(1, builder);
    assert!(matches!(r, Err(Error::InvalidFrameLength(72))));
    assert_eq!(sent.borrow().len(), 0);
}

#[test]
fn test_query_new_with_extra() {
    let q = Query::new_with_extra(vec![RegisterData::read(
        RegisterAddr::ControlPosition,
        Resolution::Float,
    )]);
    let builder = q.to_builder();
    let bytes = builder.build().as_bytes().unwrap();
    // The default reads plus one ReadF32 run at 0x38.
    assert_eq!(
        bytes,
        vec![0x11, 0x00, 0x13, 0x0D, 0x1F, 0x01, 0x1D, 0x38]
    );
}

#[test]
fn test_position_hold_frame() {
    // Holding position writes the mode register and the not-a-number
    // sentinel into the commanded position at float resolution.
    let builder = moteus::frame::Position::hold().to_builder();
    let bytes = builder.build().as_bytes().unwrap();
    assert_eq!(
        bytes,
        vec![0x01, 0x00, 0x0A, 0x0D, 0x20, 0x00, 0x00, 0xC0, 0x7F]
    );
}
