//! The capture session: interface discovery and the state machine that
//! drives the capture step of the negotiation protocol.
//!
//! The machine decides; the caller performs. Each step takes one outside
//! event (a control message, the transport coming up, a parsed report, end
//! of stream, a sink acknowledgement) and answers with the one action to
//! perform next. The caller owns the blocking work — reading the control
//! channel, opening the serial transport, reading lines, writing to the
//! sink — and feeds the outcome back in as the next event.

use crate::report::{spec_capture_data, CaptureRecord, ParseError, ZigbeePacket};
use vstd::prelude::*;
use vstd::string::StringExecFns;

verus! {

/// The link-layer identifier every offered interface declares: IEEE
/// 802.15.4 TAP.
pub const LINKTYPE_IEEE802_15_4_TAP: u32 = 283;

/// One enumerated serial device, as the library models it: its identifier
/// and what kind of port it sits on.
pub struct PortInfo {
    pub name: String,
    pub port_type: PortType,
}

/// The port kind of an enumerated device; only USB ports carry the sniffer
/// hardware, and a USB port may name its product.
pub enum PortType {
    Usb { product: Option<String> },
    Other,
}

/// One capture interface offered to the front-end.
pub struct InterfaceInfo {
    /// The device identifier the transport is opened with.
    pub value: String,
    /// The display name: the USB product name, or "Unknown" without one.
    pub display: String,
    /// The link type of every interface, `LINKTYPE_IEEE802_15_4_TAP`.
    pub dlt: u32,
}

/// The display name an enumerated USB port gets.
pub open spec fn spec_display_name(product: Option<String>) -> Seq<char> {
    match product {
        Option::Some(p) => p@,
        Option::None => "Unknown"@,
    }
}

/// The (identifier, display-name) pairs of the USB ports among the
/// enumerated devices, in enumeration order.
pub open spec fn spec_interfaces(ports: Seq<PortInfo>) -> Seq<(Seq<char>, Seq<char>)>
    decreases ports.len(),
{
    if ports.len() == 0 {
        Seq::empty()
    } else {
        let init = spec_interfaces(ports.drop_last());
        match ports.last().port_type {
            PortType::Usb { product } => init + seq![(ports.last().name@, spec_display_name(product))],
            PortType::Other => init,
        }
    }
}

/// Filters the enumerated devices to the USB ports and offers each as a
/// capture interface with the fixed link type.
pub fn capture_interfaces(ports: &Vec<PortInfo>) -> (r: Vec<InterfaceInfo>)
    ensures
        r@.map_values(|i: InterfaceInfo| (i.value@, i.display@)) == spec_interfaces(ports@),
        forall|j: int| 0 <= j < r@.len() ==> r@[j].dlt == LINKTYPE_IEEE802_15_4_TAP,
{
    let mut out: Vec<InterfaceInfo> = Vec::new();
    let mut i: usize = 0;
    while i < ports.len()
        invariant
            i <= ports.len(),
            out@.map_values(|x: InterfaceInfo| (x.value@, x.display@)) == spec_interfaces(
                ports@.take(i as int),
            ),
            forall|j: int| 0 <= j < out@.len() ==> out@[j].dlt == LINKTYPE_IEEE802_15_4_TAP,
        decreases ports.len() - i,
    {
        let port = &ports[i];
        match &port.port_type {
            PortType::Usb { product } => {
                let display: String = match product {
                    Some(p) => p.clone(),
                    None => String::from_str("Unknown"),
                };
                let value: String = port.name.clone();
                out.push(InterfaceInfo { value, display, dlt: LINKTYPE_IEEE802_15_4_TAP });
            },
            PortType::Other => {},
        }
        proof {
            assert(ports@.take(i + 1 as int).drop_last() =~= ports@.take(i as int));
            assert(ports@.take(i + 1 as int).last() == ports@[i as int]);
            assert(out@.map_values(|x: InterfaceInfo| (x.value@, x.display@)) =~= spec_interfaces(
                ports@.take(i + 1 as int),
            ));
        }
        i = i + 1;
    }
    proof {
        assert(ports@.take(ports@.len() as int) =~= ports@);
    }
    out
}

/// One in-band control message from the front-end: the initialization
/// acknowledgement, or any other command with its raw command code.
#[derive(Clone, Copy, Debug, PartialEq, Eq, Structural)]
pub enum ControlMsg {
    Initialized,
    Other(u8),
}

/// Why a capture session aborted.
#[derive(Clone, Copy, Debug, PartialEq, Eq, Structural)]
pub enum SessionError {
    /// The first control message was not the initialization command.
    UnexpectedControlCommand,
    /// The control channel closed before the handshake.
    ControlChannelClosed,
    /// The serial transport could not be opened.
    TransportOpenFailed,
    /// The serial transport failed mid-capture.
    TransportReadFailed,
    /// The sink refused a record.
    SinkWriteFailed,
    /// A device record could not be decoded.
    BadRecord(ParseError),
    /// An assembled record outgrew the 32-bit record length.
    RecordTooLong,
    /// The caller fed an event the current state cannot take.
    UnexpectedEvent,
}

/// Where a capture session stands.
#[derive(Clone, Copy, Debug, PartialEq, Eq, Structural)]
pub enum SessionState {
    /// Waiting for the one-shot control handshake.
    AwaitingControl,
    /// Handshake done (or no control channel); the transport must be opened.
    Opening,
    /// Transport open; waiting for the next line or end of stream.
    Streaming,
    /// A record was handed out; waiting for the sink's acknowledgement.
    AwaitingWrite,
    /// End of stream: the session ended cleanly.
    Done,
    /// A fatal condition ended the session.
    Failed,
}

/// One outside event fed into the machine.
#[derive(Debug)]
pub enum CaptureEvent {
    /// A control message arrived.
    Control(ControlMsg),
    /// The control channel closed without a message.
    ControlClosed,
    /// The serial transport and the sink header are up.
    Opened,
    /// The transport (or the sink header) could not be set up.
    OpenFailed,
    /// One line was read and decoded; the decode outcome rides along.
    Report(Result<ZigbeePacket, ParseError>),
    /// Reading the next line failed.
    ReadFailed,
    /// The transport reached end of stream.
    Eof,
    /// The sink accepted the last record.
    Written,
    /// The sink refused the last record.
    WriteFailed,
}

/// The one action the caller performs next.
#[derive(Debug)]
pub enum CaptureAction {
    /// Block on the control channel for one message.
    WaitControl,
    /// Open the serial transport and write the sink header.
    Open,
    /// Read the next line.
    ReadLine,
    /// Hand this record to the sink.
    Write(CaptureRecord),
    /// The session is over; exit cleanly.
    Finish,
    /// The session is over; report the error and exit with failure.
    Abort(SessionError),
}

/// What kind an event is, as the transition relation sees it: a report
/// event is good exactly when it parsed and its record fits the 32-bit
/// record length.
#[derive(Clone, Copy, Debug, PartialEq, Eq, Structural)]
pub enum EventKind {
    CtlInit,
    CtlOther,
    CtlClosed,
    Opened,
    OpenFailed,
    ReportGood,
    ReportBad,
    ReadFailed,
    Eof,
    Written,
    WriteFailed,
}

/// What kind an action is.
#[derive(Clone, Copy, Debug, PartialEq, Eq, Structural)]
pub enum ActionKind {
    WaitControl,
    Open,
    ReadLine,
    Write,
    Finish,
    Abort,
}

pub open spec fn spec_ev(e: CaptureEvent) -> EventKind {
    match e {
        CaptureEvent::Control(ControlMsg::Initialized) => EventKind::CtlInit,
        CaptureEvent::Control(ControlMsg::Other(_)) => EventKind::CtlOther,
        CaptureEvent::ControlClosed => EventKind::CtlClosed,
        CaptureEvent::Opened => EventKind::Opened,
        CaptureEvent::OpenFailed => EventKind::OpenFailed,
        CaptureEvent::Report(Result::Ok(p)) => if spec_capture_data(&p).len() <= u32::MAX {
            EventKind::ReportGood
        } else {
            EventKind::ReportBad
        },
        CaptureEvent::Report(Result::Err(_)) => EventKind::ReportBad,
        CaptureEvent::ReadFailed => EventKind::ReadFailed,
        CaptureEvent::Eof => EventKind::Eof,
        CaptureEvent::Written => EventKind::Written,
        CaptureEvent::WriteFailed => EventKind::WriteFailed,
    }
}

/// The transition relation: the state after taking one event.
pub open spec fn spec_next(s: SessionState, k: EventKind) -> SessionState {
    match s {
        SessionState::AwaitingControl => match k {
            EventKind::CtlInit => SessionState::Opening,
            _ => SessionState::Failed,
        },
        SessionState::Opening => match k {
            EventKind::Opened => SessionState::Streaming,
            _ => SessionState::Failed,
        },
        SessionState::Streaming => match k {
            EventKind::ReportGood => SessionState::AwaitingWrite,
            EventKind::Eof => SessionState::Done,
            _ => SessionState::Failed,
        },
        SessionState::AwaitingWrite => match k {
            EventKind::Written => SessionState::Streaming,
            _ => SessionState::Failed,
        },
        SessionState::Done => SessionState::Done,
        SessionState::Failed => SessionState::Failed,
    }
}

/// The kind of action one step answers with.
pub open spec fn spec_act(s: SessionState, k: EventKind) -> ActionKind {
    match s {
        SessionState::AwaitingControl => match k {
            EventKind::CtlInit => ActionKind::Open,
            _ => ActionKind::Abort,
        },
        SessionState::Opening => match k {
            EventKind::Opened => ActionKind::ReadLine,
            _ => ActionKind::Abort,
        },
        SessionState::Streaming => match k {
            EventKind::ReportGood => ActionKind::Write,
            EventKind::Eof => ActionKind::Finish,
            _ => ActionKind::Abort,
        },
        SessionState::AwaitingWrite => match k {
            EventKind::Written => ActionKind::ReadLine,
            _ => ActionKind::Abort,
        },
        SessionState::Done => ActionKind::Finish,
        SessionState::Failed => ActionKind::Abort,
    }
}

pub open spec fn act_kind(a: CaptureAction) -> ActionKind {
    match a {
        CaptureAction::WaitControl => ActionKind::WaitControl,
        CaptureAction::Open => ActionKind::Open,
        CaptureAction::ReadLine => ActionKind::ReadLine,
        CaptureAction::Write(_) => ActionKind::Write,
        CaptureAction::Finish => ActionKind::Finish,
        CaptureAction::Abort(_) => ActionKind::Abort,
    }
}

/// A capture session, driven one event at a time.
pub struct CaptureSession {
    pub state: SessionState,
}

impl CaptureSession {
    /// Starts a capture session. With a control channel the session first
    /// blocks on the one-shot initialization handshake; without one it opens
    /// the transport at once.
    pub fn start(has_control: bool) -> (r: (CaptureSession, CaptureAction))
        ensures
            has_control ==> r.0.state == SessionState::AwaitingControl && r.1
                matches CaptureAction::WaitControl,
            !has_control ==> r.0.state == SessionState::Opening && r.1
                matches CaptureAction::Open,
    {
        if has_control {
            (CaptureSession { state: SessionState::AwaitingControl }, CaptureAction::WaitControl)
        } else {
            (CaptureSession { state: SessionState::Opening }, CaptureAction::Open)
        }
    }

    /// Takes one outside event and answers with the next action. The state
    /// moves along `spec_next`; the action is of kind `spec_act`, and its
    /// payload is pinned down case by case: a well-formed report in the
    /// streaming state comes back as exactly its assembled capture record,
    /// and every fatal condition comes back as its own error.
    pub fn step(&mut self, e: CaptureEvent) -> (a: CaptureAction)
        ensures
            final(self).state == spec_next(old(self).state, spec_ev(e)),
            act_kind(a) == spec_act(old(self).state, spec_ev(e)),
            match (old(self).state, e) {
                (SessionState::AwaitingControl, CaptureEvent::Control(m)) => match m {
                    ControlMsg::Initialized => a matches CaptureAction::Open,
                    ControlMsg::Other(_) => a matches CaptureAction::Abort(err) && err
                        == SessionError::UnexpectedControlCommand,
                },
                (SessionState::AwaitingControl, CaptureEvent::ControlClosed) => a
                    matches CaptureAction::Abort(err) && err == SessionError::ControlChannelClosed,
                (SessionState::Opening, CaptureEvent::Opened) => a
                    matches CaptureAction::ReadLine,
                (SessionState::Opening, CaptureEvent::OpenFailed) => a
                    matches CaptureAction::Abort(err) && err == SessionError::TransportOpenFailed,
                (SessionState::Streaming, CaptureEvent::Report(res)) => match res {
                    Result::Ok(p) => if spec_capture_data(&p).len() <= u32::MAX {
                        a matches CaptureAction::Write(rec) && rec.timestamp == p.timestamp
                            && rec.data@ == spec_capture_data(&p) && rec.orig_len
                            == rec.data@.len()
                    } else {
                        a matches CaptureAction::Abort(err) && err == SessionError::RecordTooLong
                    },
                    Result::Err(pe) => a matches CaptureAction::Abort(err) && err
                        == SessionError::BadRecord(pe),
                },
                (SessionState::Streaming, CaptureEvent::ReadFailed) => a
                    matches CaptureAction::Abort(err) && err
                    == SessionError::TransportReadFailed,
                (SessionState::Streaming, CaptureEvent::Eof) => a matches CaptureAction::Finish,
                (SessionState::AwaitingWrite, CaptureEvent::Written) => a
                    matches CaptureAction::ReadLine,
                (SessionState::AwaitingWrite, CaptureEvent::WriteFailed) => a
                    matches CaptureAction::Abort(err) && err == SessionError::SinkWriteFailed,
                (SessionState::Done, _) => a matches CaptureAction::Finish,
                (SessionState::Failed, _) => a matches CaptureAction::Abort(err) && err
                    == SessionError::UnexpectedEvent,
                _ => a matches CaptureAction::Abort(err) && err == SessionError::UnexpectedEvent,
            },
    {
        match (self.state, e) {
            (SessionState::AwaitingControl, CaptureEvent::Control(ControlMsg::Initialized)) => {
                self.state = SessionState::Opening;
                CaptureAction::Open
            },
            (SessionState::AwaitingControl, CaptureEvent::Control(ControlMsg::Other(_))) => {
                self.state = SessionState::Failed;
                CaptureAction::Abort(SessionError::UnexpectedControlCommand)
            },
            (SessionState::AwaitingControl, CaptureEvent::ControlClosed) => {
                self.state = SessionState::Failed;
                CaptureAction::Abort(SessionError::ControlChannelClosed)
            },
            (SessionState::Opening, CaptureEvent::Opened) => {
                self.state = SessionState::Streaming;
                CaptureAction::ReadLine
            },
            (SessionState::Opening, CaptureEvent::OpenFailed) => {
                self.state = SessionState::Failed;
                CaptureAction::Abort(SessionError::TransportOpenFailed)
            },
            (SessionState::Streaming, CaptureEvent::Report(res)) => match res {
                Ok(p) => match p.as_pcap_packet() {
                    Ok(rec) => {
                        self.state = SessionState::AwaitingWrite;
                        CaptureAction::Write(rec)
                    },
                    Err(_) => {
                        self.state = SessionState::Failed;
                        CaptureAction::Abort(SessionError::RecordTooLong)
                    },
                },
                Err(pe) => {
                    self.state = SessionState::Failed;
                    CaptureAction::Abort(SessionError::BadRecord(pe))
                },
            },
            (SessionState::Streaming, CaptureEvent::ReadFailed) => {
                self.state = SessionState::Failed;
                CaptureAction::Abort(SessionError::TransportReadFailed)
            },
            (SessionState::Streaming, CaptureEvent::Eof) => {
                self.state = SessionState::Done;
                CaptureAction::Finish
            },
            (SessionState::AwaitingWrite, CaptureEvent::Written) => {
                self.state = SessionState::Streaming;
                CaptureAction::ReadLine
            },
            (SessionState::AwaitingWrite, CaptureEvent::WriteFailed) => {
                self.state = SessionState::Failed;
                CaptureAction::Abort(SessionError::SinkWriteFailed)
            },
            (SessionState::Done, _) => CaptureAction::Finish,
            (SessionState::Failed, _) => CaptureAction::Abort(SessionError::UnexpectedEvent),
            _ => {
                self.state = SessionState::Failed;
                CaptureAction::Abort(SessionError::UnexpectedEvent)
            },
        }
    }
}

/// The state after a whole run of events.
pub open spec fn spec_run(s: SessionState, ks: Seq<EventKind>) -> SessionState
    decreases ks.len(),
{
    if ks.len() == 0 {
        s
    } else {
        spec_run(spec_next(s, ks[0]), ks.skip(1))
    }
}

/// How many records a whole run of events hands to the sink.
pub open spec fn spec_write_count(s: SessionState, ks: Seq<EventKind>) -> nat
    decreases ks.len(),
{
    if ks.len() == 0 {
        0
    } else {
        (if spec_act(s, ks[0]) == ActionKind::Write {
            1nat
        } else {
            0nat
        }) + spec_write_count(spec_next(s, ks[0]), ks.skip(1))
    }
}

/// Whether any step of a run asks for the transport to be opened.
pub open spec fn spec_opens_transport(s: SessionState, ks: Seq<EventKind>) -> bool
    decreases ks.len(),
{
    if ks.len() == 0 {
        false
    } else {
        spec_act(s, ks[0]) == ActionKind::Open || spec_opens_transport(
            spec_next(s, ks[0]),
            ks.skip(1),
        )
    }
}

/// The events of a clean capture: n reports, each well-formed and
/// acknowledged by the sink, then end of stream.
pub open spec fn good_stream(n: nat) -> Seq<EventKind>
    decreases n,
{
    if n == 0 {
        seq![EventKind::Eof]
    } else {
        seq![EventKind::ReportGood, EventKind::Written] + good_stream((n - 1) as nat)
    }
}

/// The events of n well-formed, acknowledged reports, with no close yet.
pub open spec fn good_prefix(n: nat) -> Seq<EventKind>
    decreases n,
{
    if n == 0 {
        Seq::empty()
    } else {
        seq![EventKind::ReportGood, EventKind::Written] + good_prefix((n - 1) as nat)
    }
}

/// Law: a failed session stays failed, writes nothing more, and never asks
/// for the transport.
pub proof fn lemma_failed_absorbs(ks: Seq<EventKind>)
    ensures
        spec_run(SessionState::Failed, ks) == SessionState::Failed,
        spec_write_count(SessionState::Failed, ks) == 0,
        !spec_opens_transport(SessionState::Failed, ks),
    decreases ks.len(),
{
    if ks.len() != 0 {
        lemma_failed_absorbs(ks.skip(1));
    }
}

/// Law: a streaming session that sees n well-formed reports, each
/// acknowledged by the sink, and then end of stream, writes exactly n
/// records and ends cleanly.
pub proof fn lemma_capture_success(n: nat)
    ensures
        spec_run(SessionState::Streaming, good_stream(n)) == SessionState::Done,
        spec_write_count(SessionState::Streaming, good_stream(n)) == n,
    decreases n,
{
    if n == 0 {
        let ks = good_stream(0);
        assert(ks[0] == EventKind::Eof);
        assert(ks.skip(1) =~= Seq::<EventKind>::empty());
        assert(spec_run(SessionState::Streaming, ks) == spec_run(
            SessionState::Done,
            ks.skip(1),
        ));
        assert(spec_run(SessionState::Done, ks.skip(1)) == SessionState::Done);
        assert(spec_write_count(SessionState::Done, ks.skip(1)) == 0);
    } else {
        lemma_capture_success((n - 1) as nat);
        let ks = good_stream(n);
        let rest = good_stream((n - 1) as nat);
        assert(ks[0] == EventKind::ReportGood);
        assert(ks.skip(1)[0] == EventKind::Written);
        assert(ks.skip(1).skip(1) =~= rest);
        assert(spec_run(SessionState::Streaming, ks) == spec_run(
            SessionState::AwaitingWrite,
            ks.skip(1),
        ));
        assert(spec_run(SessionState::AwaitingWrite, ks.skip(1)) == spec_run(
            SessionState::Streaming,
            rest,
        ));
        assert(spec_write_count(SessionState::Streaming, ks) == 1 + spec_write_count(
            SessionState::AwaitingWrite,
            ks.skip(1),
        ));
        assert(spec_write_count(SessionState::AwaitingWrite, ks.skip(1)) == spec_write_count(
            SessionState::Streaming,
            rest,
        ));
    }
}

/// Law: a streaming session that sees n clean, acknowledged reports and
/// then one bad report fails, having written exactly the n records —
/// whatever events come after the bad report, nothing more is written.
pub proof fn lemma_capture_abort(n: nat, rest: Seq<EventKind>)
    ensures
        spec_run(SessionState::Streaming, good_prefix(n) + seq![EventKind::ReportBad] + rest)
            == SessionState::Failed,
        spec_write_count(SessionState::Streaming, good_prefix(n) + seq![EventKind::ReportBad] + rest)
            == n,
    decreases n,
{
    let ks = good_prefix(n) + seq![EventKind::ReportBad] + rest;
    if n == 0 {
        assert(ks[0] == EventKind::ReportBad);
        assert(ks.skip(1) =~= rest);
        lemma_failed_absorbs(rest);
        assert(spec_run(SessionState::Streaming, ks) == spec_run(SessionState::Failed, rest));
        assert(spec_write_count(SessionState::Streaming, ks) == spec_write_count(
            SessionState::Failed,
            rest,
        ));
    } else {
        lemma_capture_abort((n - 1) as nat, rest);
        let tail = good_prefix((n - 1) as nat) + seq![EventKind::ReportBad] + rest;
        assert(ks[0] == EventKind::ReportGood);
        assert(ks.skip(1)[0] == EventKind::Written);
        assert(ks.skip(1).skip(1) =~= tail);
        assert(spec_run(SessionState::Streaming, ks) == spec_run(
            SessionState::AwaitingWrite,
            ks.skip(1),
        ));
        assert(spec_run(SessionState::AwaitingWrite, ks.skip(1)) == spec_run(
            SessionState::Streaming,
            tail,
        ));
        assert(spec_write_count(SessionState::Streaming, ks) == 1 + spec_write_count(
            SessionState::AwaitingWrite,
            ks.skip(1),
        ));
        assert(spec_write_count(SessionState::AwaitingWrite, ks.skip(1)) == spec_write_count(
            SessionState::Streaming,
            tail,
        ));
    }
}

/// Law: if the first control message after capture start is anything but
/// the initialization command, the session fails at once, and no step of
/// the whole run — whatever comes after — ever asks for the transport to be
/// opened.
pub proof fn lemma_control_violation(k: EventKind, rest: Seq<EventKind>)
    requires
        k != EventKind::CtlInit,
    ensures
        spec_next(SessionState::AwaitingControl, k) == SessionState::Failed,
        spec_act(SessionState::AwaitingControl, k) == ActionKind::Abort,
        !spec_opens_transport(SessionState::AwaitingControl, seq![k] + rest),
{
    let ks = seq![k] + rest;
    assert(ks[0] == k);
    assert(ks.skip(1) =~= rest);
    lemma_failed_absorbs(rest);
}

} // verus!
