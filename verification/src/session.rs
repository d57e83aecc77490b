//! The messages between a session's owner and its background task, and the
//! decisions that the background task takes on commands and reads.
use vstd::prelude::*;
use crate::address::{Ipv4Address, Ipv6Address, SocketAddress};
use crate::error::TransportError;
use crate::ConnectionState;

verus! {

/// A command sent to a session's background task.
#[derive(Debug)]
pub enum SessionCommand {
    /// Write `data` to the connection.
    Write { data: Vec<u8> },
    /// Send `data` as one datagram to `addr` (UDP only).
    SendTo { data: Vec<u8>, addr: SocketAddress },
    /// Turn broadcast on or off (UDP only).
    SetBroadcast { flag: bool },
    /// Join an IPv4 multicast group on an interface (UDP only).
    JoinMulticastV4 { multiaddr: Ipv4Address, iface: Ipv4Address },
    /// Leave an IPv4 multicast group on an interface (UDP only).
    LeaveMulticastV4 { multiaddr: Ipv4Address, iface: Ipv4Address },
    /// Join an IPv6 multicast group on an interface index (UDP only).
    JoinMulticastV6 { multiaddr: Ipv6Address, iface: u32 },
    /// Leave an IPv6 multicast group on an interface index (UDP only).
    LeaveMulticastV6 { multiaddr: Ipv6Address, iface: u32 },
    /// End the session.
    Close,
}

/// An event reported by a session's background task.
#[derive(Debug, Clone)]
pub enum SessionEvent {
    /// Bytes arrived from the connection.
    DataReceived { data: Vec<u8> },
    /// An operation failed.
    Error { message: String },
    /// The session has ended.
    Closed,
    /// The connection state changed.
    StateChanged { state: ConnectionState },
}

/// An operation that only a UDP transport supports.
#[derive(Debug, Clone, Copy, PartialEq, Eq, Structural)]
pub enum UdpOperation {
    SendTo,
    SetBroadcast,
    JoinMulticastV4,
    LeaveMulticastV4,
    JoinMulticastV6,
    LeaveMulticastV6,
}

impl UdpOperation {
    /// The operation's name as its refusal messages quote it.
    pub open spec fn spec_name(self) -> Seq<char> {
        match self {
            UdpOperation::SendTo => "send_to"@,
            UdpOperation::SetBroadcast => "set_broadcast"@,
            UdpOperation::JoinMulticastV4 => "join_multicast_v4"@,
            UdpOperation::LeaveMulticastV4 => "leave_multicast_v4"@,
            UdpOperation::JoinMulticastV6 => "join_multicast_v6"@,
            UdpOperation::LeaveMulticastV6 => "leave_multicast_v6"@,
        }
    }

    /// The operation's name as its refusal messages quote it.
    pub fn name(&self) -> (name: &'static str)
        ensures
            name@ == self.spec_name(),
    {
        match self {
            UdpOperation::SendTo => "send_to",
            UdpOperation::SetBroadcast => "set_broadcast",
            UdpOperation::JoinMulticastV4 => "join_multicast_v4",
            UdpOperation::LeaveMulticastV4 => "leave_multicast_v4",
            UdpOperation::JoinMulticastV6 => "join_multicast_v6",
            UdpOperation::LeaveMulticastV6 => "leave_multicast_v6",
        }
    }
}

/// The detail of the error that a non-UDP transport gives for `op`.
pub open spec fn udp_only_detail(op: UdpOperation) -> Seq<char> {
    op.spec_name() + " is only available for UDP"@
}

/// The concrete transport of a running session: a TCP connection, a UDP
/// socket or a serial line.
pub enum SessionTransport<T, U, S> {
    Tcp(T),
    Udp(U),
    Serial(S),
}

impl<T, U, S> SessionTransport<T, U, S> {
    /// The UDP socket that `op` is to be carried out on; any other transport
    /// refuses `op` with a configuration error that names it.
    pub fn udp_target(&self, op: UdpOperation) -> (r: Result<&U, TransportError>)
        ensures
            match *self {
                SessionTransport::Udp(u) => r == Ok::<&U, TransportError>(&u),
                _ => r matches Err(TransportError::Config(m)) && m@ == udp_only_detail(op),
            },
    {
        match self {
            SessionTransport::Udp(u) => Ok(u),
            _ => Err(TransportError::Config(String::from_str(op.name()).concat(" is only available for UDP"))),
        }
    }

    /// Turns sending to broadcast addresses on or off for the session's UDP
    /// socket and returns the socket's answer for `flag`; any other
    /// transport refuses with a configuration error that names the
    /// operation, and nothing is switched.
    pub fn set_broadcast(&self, flag: bool) -> (r: Result<(), TransportError>)
        where U: BroadcastSocket,
        ensures
            *self matches SessionTransport::Udp(u) ==> call_ensures(U::set_broadcast, (&u, flag), r),
            !(*self is Udp) ==> (r matches Err(TransportError::Config(m)) && m@ == udp_only_detail(
                UdpOperation::SetBroadcast,
            )),
    {
        match self.udp_target(UdpOperation::SetBroadcast) {
            Ok(u) => u.set_broadcast(flag),
            Err(e) => Err(e),
        }
    }
}

/// A UDP socket whose broadcast option can be switched. What the switch
/// returns is the socket's own affair: nothing is stated of it.
pub trait BroadcastSocket {
    /// Turns sending to broadcast addresses on or off.
    fn set_broadcast(&self, flag: bool) -> Result<(), TransportError>;
}

/// The event a background task reports once its session runs: the
/// connection is up.
pub fn started_event() -> (event: SessionEvent)
    ensures
        event == (SessionEvent::StateChanged { state: ConnectionState::Connected }),
{
    SessionEvent::StateChanged { state: ConnectionState::Connected }
}

/// The event a background task reports when it ends.
pub fn shutdown_event() -> (event: SessionEvent)
    ensures
        event is Closed,
{
    SessionEvent::Closed
}

/// Whether a received command ends the session: a `Close` command, or the
/// command channel having no sender left (`None`).
pub fn command_ends_session(cmd: &Option<SessionCommand>) -> (ends: bool)
    ensures
        ends == match *cmd {
            None => true,
            Some(SessionCommand::Close) => true,
            Some(_) => false,
        },
{
    match cmd {
        None => true,
        Some(SessionCommand::Close) => true,
        Some(_) => false,
    }
}

/// The label that failures of a command are reported under.
pub open spec fn command_label(cmd: SessionCommand) -> Seq<char> {
    match cmd {
        SessionCommand::Write { .. } => "Write"@,
        SessionCommand::SendTo { .. } => "SendTo"@,
        SessionCommand::SetBroadcast { .. } => "SetBroadcast"@,
        SessionCommand::JoinMulticastV4 { .. } => "JoinMulticastV4"@,
        SessionCommand::LeaveMulticastV4 { .. } => "LeaveMulticastV4"@,
        SessionCommand::JoinMulticastV6 { .. } => "JoinMulticastV6"@,
        SessionCommand::LeaveMulticastV6 { .. } => "LeaveMulticastV6"@,
        SessionCommand::Close => "Close"@,
    }
}

/// The error event for a command whose operation failed with the error text
/// `detail`: `"<label> error: <detail>"`.
pub fn command_failure_event(cmd: &SessionCommand, detail: &str) -> (event: SessionEvent)
    ensures
        event matches SessionEvent::Error { message } && message@ == command_label(*cmd)
            + " error: "@ + detail@,
{
    let label = match cmd {
        SessionCommand::Write { .. } => "Write",
        SessionCommand::SendTo { .. } => "SendTo",
        SessionCommand::SetBroadcast { .. } => "SetBroadcast",
        SessionCommand::JoinMulticastV4 { .. } => "JoinMulticastV4",
        SessionCommand::LeaveMulticastV4 { .. } => "LeaveMulticastV4",
        SessionCommand::JoinMulticastV6 { .. } => "JoinMulticastV6",
        SessionCommand::LeaveMulticastV6 { .. } => "LeaveMulticastV6",
        SessionCommand::Close => "Close",
    };
    SessionEvent::Error { message: String::from_str(label).concat(" error: ").concat(detail) }
}

/// What a background task reports after carrying out a command: nothing
/// when it succeeded, one error event when it failed with the text `detail`.
pub fn command_outcome(cmd: &SessionCommand, result: Result<(), String>) -> (event: Option<
    SessionEvent,
>)
    ensures
        result is Ok ==> event is None,
        result matches Err(detail) ==> (event matches Some(SessionEvent::Error { message })
            && message@ == command_label(*cmd) + " error: "@ + detail@),
{
    match result {
        Ok(()) => None,
        Err(detail) => Some(command_failure_event(cmd, detail.as_str())),
    }
}

/// What one read attempt on the connection gave.
#[derive(Debug)]
pub enum ReadOutcome {
    /// This many bytes were read into the buffer; 0 means end of stream.
    Received(usize),
    /// No data was ready.
    WouldBlock,
    /// The read failed; the error's text.
    Failed(String),
}

/// What the background task does after a read attempt.
#[derive(Debug)]
pub enum ReadDecision {
    /// Report these bytes (as a `DataReceived` event and to the front end)
    /// and keep going; stop if the event cannot be delivered.
    Deliver(Vec<u8>),
    /// Nothing to do; keep going.
    Idle,
    /// Report these events, then end the session.
    Stop(Vec<SessionEvent>),
}

/// Decides on a read attempt whose bytes, if any, are at the start of `buf`.
pub fn decide_read(outcome: ReadOutcome, buf: &[u8]) -> (d: ReadDecision)
    requires
        outcome matches ReadOutcome::Received(n) ==> n <= buf@.len(),
    ensures
        match outcome {
            ReadOutcome::Received(n) => if n == 0 {
                d matches ReadDecision::Stop(events) && events@ == seq![
                    SessionEvent::StateChanged { state: ConnectionState::Disconnected },
                ]
            } else {
                d matches ReadDecision::Deliver(data) && data@ == buf@.take(n as int)
            },
            ReadOutcome::WouldBlock => d is Idle,
            ReadOutcome::Failed(text) => d matches ReadDecision::Stop(events) && events@.len() == 2
                && (events@[0] matches SessionEvent::Error { message } && message@ == "Read error: "@
                + text@) && events@[1] == SessionEvent::StateChanged {
                state: ConnectionState::Disconnected,
            },
        },
{
    match outcome {
        ReadOutcome::Received(n) => {
            if n == 0 {
                let mut events: Vec<SessionEvent> = Vec::new();
                events.push(SessionEvent::StateChanged { state: ConnectionState::Disconnected });
                ReadDecision::Stop(events)
            } else {
                let mut data: Vec<u8> = Vec::new();
                let mut i: usize = 0;
                while i < n
                    invariant
                        i <= n,
                        n <= buf@.len(),
                        data@ == buf@.take(i as int),
                    decreases n - i,
                {
                    data.push(buf[i]);
                    i = i + 1;
                    assert(data@ =~= buf@.take(i as int));
                }
                ReadDecision::Deliver(data)
            }
        },
        ReadOutcome::WouldBlock => ReadDecision::Idle,
        ReadOutcome::Failed(text) => {
            let mut events: Vec<SessionEvent> = Vec::new();
            let message = String::from_str("Read error: ").concat(text.as_str());
            events.push(SessionEvent::Error { message });
            events.push(SessionEvent::StateChanged { state: ConnectionState::Disconnected });
            ReadDecision::Stop(events)
        },
    }
}

/// The data chunks of the events up to the first `Closed` event, in order.
pub open spec fn received_before_close(events: Seq<SessionEvent>) -> Seq<Seq<u8>>
    decreases events.len(),
{
    if events.len() == 0 {
        Seq::empty()
    } else {
        match events[0] {
            SessionEvent::DataReceived { data } => seq![data@] + received_before_close(
                events.drop_first(),
            ),
            SessionEvent::Closed => Seq::empty(),
            _ => received_before_close(events.drop_first()),
        }
    }
}

/// Whether a `Closed` event is among `events`.
pub open spec fn has_close(events: Seq<SessionEvent>) -> bool {
    exists|i: int| 0 <= i < events.len() && #[trigger] events[i] is Closed
}

/// The chunks one event contributes, when no `Closed` came before it.
pub open spec fn chunk_of(event: SessionEvent) -> Seq<Seq<u8>> {
    match event {
        SessionEvent::DataReceived { data } => seq![data@],
        _ => Seq::empty(),
    }
}

/// Before any `Closed` event, one more event adds exactly its own data, if
/// it carries any, after everything received so far: nothing is dropped,
/// repeated or reordered.
pub proof fn lemma_received_push(events: Seq<SessionEvent>, event: SessionEvent)
    requires
        !has_close(events),
    ensures
        received_before_close(events.push(event)) == received_before_close(events) + chunk_of(
            event,
        ),
    decreases events.len(),
{
    if events.len() == 0 {
        let one = events.push(event);
        assert(one.drop_first() =~= Seq::<SessionEvent>::empty());
        assert(received_before_close(one.drop_first()) =~= Seq::<Seq<u8>>::empty());
        match event {
            SessionEvent::DataReceived { data } => {
                assert(seq![data@] + Seq::<Seq<u8>>::empty() =~= seq![data@]);
            },
            _ => {},
        }
        assert(Seq::<Seq<u8>>::empty() + chunk_of(event) =~= chunk_of(event));
    } else {
        let rest = events.drop_first();
        assert(events.push(event).drop_first() =~= rest.push(event));
        assert(!has_close(rest)) by {
            if has_close(rest) {
                let i = choose|i: int| 0 <= i < rest.len() && #[trigger] rest[i] is Closed;
                assert(events[i + 1] is Closed);
            }
        }
        assert(!(events[0] is Closed));
        lemma_received_push(rest, event);
        match events[0] {
            SessionEvent::DataReceived { data } => {
                assert(seq![data@] + (received_before_close(rest) + chunk_of(event)) =~= (seq![data@]
                    + received_before_close(rest)) + chunk_of(event));
            },
            _ => {},
        }
    }
}

/// Once a `Closed` event has come, later events add nothing to what was
/// received.
pub proof fn lemma_received_after_close(events: Seq<SessionEvent>, event: SessionEvent)
    requires
        has_close(events),
    ensures
        received_before_close(events.push(event)) == received_before_close(events),
    decreases events.len(),
{
    let rest = events.drop_first();
    assert(events.push(event).drop_first() =~= rest.push(event));
    if !(events[0] is Closed) {
        assert(has_close(rest)) by {
            let i = choose|i: int| 0 <= i < events.len() && #[trigger] events[i] is Closed;
            assert(rest[i - 1] is Closed);
        }
        lemma_received_after_close(rest, event);
    }
}

/// Collects what a session has received from its pending events, taken in
/// one at a time as they are polled: the data of every `DataReceived`
/// event up to the first `Closed` event, in the order they arrived.
pub struct EventDrain {
    received: Vec<Vec<u8>>,
    closed: bool,
    seen: Ghost<Seq<SessionEvent>>,
}

impl EventDrain {
    #[verifier::type_invariant]
    spec fn consistent(self) -> bool {
        &&& self.received@.map_values(|c: Vec<u8>| c@) == received_before_close(self.seen@)
        &&& self.closed == has_close(self.seen@)
    }

    /// The events taken in so far, in order.
    pub closed spec fn seen(&self) -> Seq<SessionEvent> {
        self.seen@
    }

    /// A drain that has taken in nothing.
    pub fn new() -> (d: EventDrain)
        ensures
            d.seen() == Seq::<SessionEvent>::empty(),
    {
        let received: Vec<Vec<u8>> = Vec::new();
        assert(received@.map_values(|c: Vec<u8>| c@) =~= Seq::<Seq<u8>>::empty());
        EventDrain { received, closed: false, seen: Ghost(Seq::empty()) }
    }

    /// Whether more events are wanted: until a `Closed` event was taken in.
    pub fn wants_more(&self) -> (more: bool)
        ensures
            more == !has_close(self.seen()),
    {
        proof {
            use_type_invariant(self);
        }
        !self.closed
    }

    /// Takes in the next polled event.
    pub fn offer(&mut self, event: SessionEvent)
        ensures
            final(self).seen() == old(self).seen().push(event),
    {
        let mut current = EventDrain::new();
        std::mem::swap(&mut current, self);
        proof {
            use_type_invariant(&current);
        }
        let EventDrain { received, closed: closed_before, seen } = current;
        let ghost before = seen@;
        let mut received = received;
        let ghost old_chunks = received@.map_values(|c: Vec<u8>| c@);
        let now_closed = closed_before || matches!(event, SessionEvent::Closed);
        if !closed_before {
            proof {
                lemma_received_push(before, event);
            }
            match &event {
                SessionEvent::DataReceived { data } => {
                    received.push(data.clone());
                    assert(received@.map_values(|c: Vec<u8>| c@) =~= old_chunks + chunk_of(event));
                },
                _ => {
                    assert(old_chunks + chunk_of(event) =~= old_chunks);
                },
            }
        } else {
            proof {
                lemma_received_after_close(before, event);
            }
        }
        proof {
            let after = before.push(event);
            if has_close(after) && !has_close(before) {
                assert(event is Closed) by {
                    let i = choose|i: int| 0 <= i < after.len() && #[trigger] after[i] is Closed;
                    if i < before.len() {
                        assert(before[i] is Closed);
                    }
                }
            }
            if event is Closed {
                assert(after[after.len() - 1] is Closed);
            }
            if has_close(before) {
                let i = choose|i: int| 0 <= i < before.len() && #[trigger] before[i] is Closed;
                assert(after[i] is Closed);
            }
        }
        *self = EventDrain { received, closed: now_closed, seen: Ghost(before.push(event)) };
    }

    /// The data chunks collected, in order.
    pub fn finish(self) -> (chunks: Vec<Vec<u8>>)
        ensures
            chunks@.map_values(|c: Vec<u8>| c@) == received_before_close(self.seen()),
    {
        proof {
            use_type_invariant(&self);
        }
        self.received
    }
}

/// Each UDP-only operation is quoted under its own name in refusals, and
/// no two operations share a name.
pub proof fn lemma_udp_operation_names(op: UdpOperation, other: UdpOperation)
    ensures
        op.spec_name() == other.spec_name() <==> op == other,
        op.spec_name() == "send_to"@ <==> op == UdpOperation::SendTo,
        op.spec_name() == "set_broadcast"@ <==> op == UdpOperation::SetBroadcast,
        op.spec_name() == "join_multicast_v4"@ <==> op == UdpOperation::JoinMulticastV4,
        op.spec_name() == "leave_multicast_v4"@ <==> op == UdpOperation::LeaveMulticastV4,
        op.spec_name() == "join_multicast_v6"@ <==> op == UdpOperation::JoinMulticastV6,
        op.spec_name() == "leave_multicast_v6"@ <==> op == UdpOperation::LeaveMulticastV6,
{
    reveal_strlit("send_to");
    reveal_strlit("set_broadcast");
    reveal_strlit("join_multicast_v4");
    reveal_strlit("leave_multicast_v4");
    reveal_strlit("join_multicast_v6");
    reveal_strlit("leave_multicast_v6");
    assert("send_to"@.len() == 7 && "set_broadcast"@.len() == 13);
    assert("join_multicast_v4"@.len() == 17 && "join_multicast_v6"@.len() == 17);
    assert("leave_multicast_v4"@.len() == 18 && "leave_multicast_v6"@.len() == 18);
    assert("join_multicast_v4"@[0] != "leave_multicast_v4"@[0]);
    assert("join_multicast_v4"@[16] != "join_multicast_v6"@[16]);
    assert("leave_multicast_v4"@[17] != "leave_multicast_v6"@[17]);
}

/// Each command's failures are reported under its own label, and no two
/// kinds of command share a label.
pub proof fn lemma_command_labels(cmd: SessionCommand, other: SessionCommand)
    ensures
        command_label(cmd) == command_label(other) <==> (cmd is Write && other is Write) || (
        cmd is SendTo && other is SendTo) || (cmd is SetBroadcast && other is SetBroadcast) || (
        cmd is JoinMulticastV4 && other is JoinMulticastV4) || (cmd is LeaveMulticastV4
            && other is LeaveMulticastV4) || (cmd is JoinMulticastV6 && other is JoinMulticastV6)
            || (cmd is LeaveMulticastV6 && other is LeaveMulticastV6) || (cmd is Close
            && other is Close),
        command_label(cmd) == "Write"@ <==> cmd is Write,
        command_label(cmd) == "SendTo"@ <==> cmd is SendTo,
        command_label(cmd) == "SetBroadcast"@ <==> cmd is SetBroadcast,
        command_label(cmd) == "JoinMulticastV4"@ <==> cmd is JoinMulticastV4,
        command_label(cmd) == "LeaveMulticastV4"@ <==> cmd is LeaveMulticastV4,
        command_label(cmd) == "JoinMulticastV6"@ <==> cmd is JoinMulticastV6,
        command_label(cmd) == "LeaveMulticastV6"@ <==> cmd is LeaveMulticastV6,
        command_label(cmd) == "Close"@ <==> cmd is Close,
{
    reveal_strlit("Write");
    reveal_strlit("SendTo");
    reveal_strlit("SetBroadcast");
    reveal_strlit("JoinMulticastV4");
    reveal_strlit("LeaveMulticastV4");
    reveal_strlit("JoinMulticastV6");
    reveal_strlit("LeaveMulticastV6");
    reveal_strlit("Close");
    assert("Write"@.len() == 5 && "Close"@.len() == 5 && "SendTo"@.len() == 6);
    assert("SetBroadcast"@.len() == 12);
    assert("JoinMulticastV4"@.len() == 15 && "JoinMulticastV6"@.len() == 15);
    assert("LeaveMulticastV4"@.len() == 16 && "LeaveMulticastV6"@.len() == 16);
    assert("Write"@[0] != "Close"@[0]);
    assert("JoinMulticastV4"@[14] != "JoinMulticastV6"@[14]);
    assert("LeaveMulticastV4"@[15] != "LeaveMulticastV6"@[15]);
}

} // verus!
