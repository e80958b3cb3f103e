use zigbee_tap::report::{ParseError, Timestamp, ZigbeePacket};
use zigbee_tap::session::{
    capture_interfaces, CaptureAction, CaptureEvent, CaptureSession, ControlMsg, InterfaceInfo,
    PortInfo, PortType, SessionError, SessionState, LINKTYPE_IEEE802_15_4_TAP,
};

fn ts() -> Timestamp {
    Timestamp { secs: 77, nanos: 0 }
}

fn parse(line: &str) -> CaptureEvent {
    CaptureEvent::Report(ZigbeePacket::from_json(line, ts()))
}

#[test]
fn capture_two_lines_then_close() {
    let (mut session, action) = CaptureSession::start(false);
    assert!(matches!(action, CaptureAction::Open));

    let mut written: Vec<Vec<u8>> = Vec::new();

    let action = session.step(CaptureEvent::Opened);
    assert!(matches!(action, CaptureAction::ReadLine));

    let action = session.step(parse("{\"Q\":1,\"R\":-10.0,\"C\":11,\"S\":\"0102\"}"));
    match action {
        CaptureAction::Write(record) => written.push(record.data),
        other => panic!("expected a write, got {other:?}"),
    }
    let action = session.step(CaptureEvent::Written);
    assert!(matches!(action, CaptureAction::ReadLine));

    let action = session.step(parse("{\"Q\":2,\"R\":-20.0,\"C\":12,\"S\":\"aabb\"}"));
    match action {
        CaptureAction::Write(record) => written.push(record.data),
        other => panic!("expected a write, got {other:?}"),
    }
    let action = session.step(CaptureEvent::Written);
    assert!(matches!(action, CaptureAction::ReadLine));

    let action = session.step(CaptureEvent::Eof);
    assert!(matches!(action, CaptureAction::Finish));
    assert_eq!(session.state, SessionState::Done);

    assert_eq!(written.len(), 2);
    assert_eq!(&written[0][28..], &[0x01, 0x02]);
    assert_eq!(&written[1][28..], &[0xAA, 0xBB]);
}

#[test]
fn capture_stops_at_first_bad_line() {
    let (mut session, _) = CaptureSession::start(false);
    session.step(CaptureEvent::Opened);

    let action = session.step(parse("{\"Q\":1,\"R\":-10.0,\"C\":11,\"S\":\"0102\"}"));
    assert!(matches!(action, CaptureAction::Write(_)));
    let action = session.step(CaptureEvent::Written);
    assert!(matches!(action, CaptureAction::ReadLine));

    let action = session.step(parse("garbage"));
    assert!(matches!(
        action,
        CaptureAction::Abort(SessionError::BadRecord(ParseError::MalformedRecord))
    ));
    assert_eq!(session.state, SessionState::Failed);

    // nothing more is ever written
    let action = session.step(parse("{\"Q\":1,\"R\":-10.0,\"C\":11,\"S\":\"0102\"}"));
    assert!(matches!(action, CaptureAction::Abort(SessionError::UnexpectedEvent)));
    assert_eq!(session.state, SessionState::Failed);
}

#[test]
fn first_control_message_must_be_initialized() {
    let (mut session, action) = CaptureSession::start(true);
    assert!(matches!(action, CaptureAction::WaitControl));

    let action = session.step(CaptureEvent::Control(ControlMsg::Other(4)));
    assert!(matches!(
        action,
        CaptureAction::Abort(SessionError::UnexpectedControlCommand)
    ));
    assert_eq!(session.state, SessionState::Failed);

    // the transport is never asked for afterwards either
    let action = session.step(CaptureEvent::Opened);
    assert!(matches!(action, CaptureAction::Abort(SessionError::UnexpectedEvent)));
}

#[test]
fn initialized_control_message_opens_transport() {
    let (mut session, action) = CaptureSession::start(true);
    assert!(matches!(action, CaptureAction::WaitControl));
    let action = session.step(CaptureEvent::Control(ControlMsg::Initialized));
    assert!(matches!(action, CaptureAction::Open));
    assert_eq!(session.state, SessionState::Opening);
}

#[test]
fn control_channel_closing_is_fatal() {
    let (mut session, _) = CaptureSession::start(true);
    let action = session.step(CaptureEvent::ControlClosed);
    assert!(matches!(action, CaptureAction::Abort(SessionError::ControlChannelClosed)));
}

#[test]
fn transport_open_failure_is_fatal() {
    let (mut session, _) = CaptureSession::start(false);
    let action = session.step(CaptureEvent::OpenFailed);
    assert!(matches!(action, CaptureAction::Abort(SessionError::TransportOpenFailed)));
}

#[test]
fn sink_write_failure_is_fatal() {
    let (mut session, _) = CaptureSession::start(false);
    session.step(CaptureEvent::Opened);
    let action = session.step(parse("{\"S\":\"00\"}"));
    assert!(matches!(action, CaptureAction::Write(_)));
    let action = session.step(CaptureEvent::WriteFailed);
    assert!(matches!(action, CaptureAction::Abort(SessionError::SinkWriteFailed)));
    assert_eq!(session.state, SessionState::Failed);
}

#[test]
fn eof_right_away_is_clean() {
    let (mut session, _) = CaptureSession::start(false);
    session.step(CaptureEvent::Opened);
    let action = session.step(CaptureEvent::Eof);
    assert!(matches!(action, CaptureAction::Finish));
    assert_eq!(session.state, SessionState::Done);
}

#[test]
fn interfaces_keep_only_usb_ports() {
    let ports = vec![
        PortInfo {
            name: String::from("/dev/ttyACM0"),
            port_type: PortType::Usb { product: Some(String::from("nRF Sniffer")) },
        },
        PortInfo { name: String::from("/dev/ttyS0"), port_type: PortType::Other },
        PortInfo { name: String::from("/dev/ttyACM1"), port_type: PortType::Usb { product: None } },
    ];
    let interfaces: Vec<InterfaceInfo> = capture_interfaces(&ports);
    assert_eq!(interfaces.len(), 2);
    assert_eq!(interfaces[0].value, "/dev/ttyACM0");
    assert_eq!(interfaces[0].display, "nRF Sniffer");
    assert_eq!(interfaces[0].dlt, LINKTYPE_IEEE802_15_4_TAP);
    assert_eq!(interfaces[1].value, "/dev/ttyACM1");
    assert_eq!(interfaces[1].display, "Unknown");
    assert_eq!(interfaces[1].dlt, 283);
}

#[test]
fn interfaces_empty_when_no_usb_port() {
    let ports = vec![PortInfo { name: String::from("/dev/ttyS0"), port_type: PortType::Other }];
    assert_eq!(capture_interfaces(&ports).len(), 0);
    assert_eq!(capture_interfaces(&Vec::new()).len(), 0);
}
