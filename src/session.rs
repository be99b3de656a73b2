//! Per-device session state: the lifecycle of the connection handshake, the
//! command frames the session sends, and the cache of the latest readings.
use vstd::prelude::*;
use crate::protocol::{CMD_TARE, CMD_SETTINGS, CMD_IDENT, CMD_TIMER};
use crate::encoding::{encode, encode_event_data, frame, event_payload};
use crate::decoding::{
    Message, MessageView, Notification, NotificationView, DecodeError, parse_notification,
    notification_of, notification_result_view,
};

verus! {

/// The latest weight (ten-thousandths) and time (tenths of a second) seen.
#[derive(Debug, Clone, Copy, PartialEq, Eq, Structural)]
pub struct Readings {
    pub weight: Option<i32>,
    pub time: Option<u32>,
}

/// Weight that a notification carries, if any.
pub open spec fn weight_carried(n: NotificationView) -> Option<i32> {
    match n {
        NotificationView::Event(MessageView::Weight { value }) => Some(value),
        NotificationView::Event(MessageView::Heartbeat { value, .. }) => value,
        _ => None,
    }
}

/// Time that a notification carries, if any.
pub open spec fn time_carried(n: NotificationView) -> Option<u32> {
    match n {
        NotificationView::Event(MessageView::Timer { time }) => Some(time),
        NotificationView::Event(MessageView::Heartbeat { time, .. }) => time,
        _ => None,
    }
}

/// The readings after one decoded notification: a carried weight or time
/// replaces the cached one, everything else leaves it.
pub open spec fn readings_after(r: Readings, n: NotificationView) -> Readings {
    Readings {
        weight: match weight_carried(n) {
            Some(w) => Some(w),
            None => r.weight,
        },
        time: match time_carried(n) {
            Some(t) => Some(t),
            None => r.time,
        },
    }
}

/// The readings after one inbound frame: unchanged when it does not decode.
pub open spec fn readings_after_frame(r: Readings, b: Seq<u8>) -> Readings {
    match notification_of(b) {
        Ok(n) => readings_after(r, n),
        Err(_) => r,
    }
}

/// The readings after a sequence of decoded notifications, in arrival order.
pub open spec fn readings_after_all(r: Readings, ns: Seq<NotificationView>) -> Readings
    decreases ns.len(),
{
    if ns.len() == 0 {
        r
    } else {
        readings_after(readings_after_all(r, ns.drop_last()), ns.last())
    }
}

/// Whether the `i`-th notification is the last one that carries a weight.
pub open spec fn last_weight_at(ns: Seq<NotificationView>, i: int) -> bool {
    &&& 0 <= i < ns.len()
    &&& weight_carried(ns[i]) is Some
    &&& forall|j: int| i < j < ns.len() ==> (#[trigger] weight_carried(ns[j])) is None
}

/// Whether the `i`-th notification is the last one that carries a time.
pub open spec fn last_time_at(ns: Seq<NotificationView>, i: int) -> bool {
    &&& 0 <= i < ns.len()
    &&& time_carried(ns[i]) is Some
    &&& forall|j: int| i < j < ns.len() ==> (#[trigger] time_carried(ns[j])) is None
}

proof fn lemma_weight_is_latest(r: Readings, ns: Seq<NotificationView>)
    ensures
        forall|i: int| #[trigger] last_weight_at(ns, i)
            ==> readings_after_all(r, ns).weight == weight_carried(ns[i]),
        (forall|i: int| 0 <= i < ns.len() ==> (#[trigger] weight_carried(ns[i])) is None)
            ==> readings_after_all(r, ns).weight == r.weight,
    decreases ns.len(),
{
    if ns.len() > 0 {
        let init = ns.drop_last();
        let k = ns.len() - 1;
        lemma_weight_is_latest(r, init);
        assert forall|i: int| #[trigger] last_weight_at(ns, i)
            implies readings_after_all(r, ns).weight == weight_carried(ns[i]) by {
            if i < k {
                assert(weight_carried(ns[k]) is None);
                assert(last_weight_at(init, i));
            }
        }
        if forall|i: int| 0 <= i < ns.len() ==> (#[trigger] weight_carried(ns[i])) is None {
            assert(weight_carried(ns[k]) is None);
            assert forall|i: int| 0 <= i < init.len() implies (#[trigger] weight_carried(init[i])) is None by {
                assert(init[i] == ns[i]);
                assert(weight_carried(ns[i]) is None);
            }
        }
    }
}

proof fn lemma_time_is_latest(r: Readings, ns: Seq<NotificationView>)
    ensures
        forall|i: int| #[trigger] last_time_at(ns, i)
            ==> readings_after_all(r, ns).time == time_carried(ns[i]),
        (forall|i: int| 0 <= i < ns.len() ==> (#[trigger] time_carried(ns[i])) is None)
            ==> readings_after_all(r, ns).time == r.time,
    decreases ns.len(),
{
    if ns.len() > 0 {
        let init = ns.drop_last();
        let k = ns.len() - 1;
        lemma_time_is_latest(r, init);
        assert forall|i: int| #[trigger] last_time_at(ns, i)
            implies readings_after_all(r, ns).time == time_carried(ns[i]) by {
            if i < k {
                assert(time_carried(ns[k]) is None);
                assert(last_time_at(init, i));
            }
        }
        if forall|i: int| 0 <= i < ns.len() ==> (#[trigger] time_carried(ns[i])) is None {
            assert(time_carried(ns[k]) is None);
            assert forall|i: int| 0 <= i < init.len() implies (#[trigger] time_carried(init[i])) is None by {
                assert(init[i] == ns[i]);
                assert(time_carried(ns[i]) is None);
            }
        }
    }
}

/// After any sequence of notifications, the cached weight is the one carried
/// by the last weight-bearing notification, or the initial one if none
/// carried a weight; the same holds of the time.
pub proof fn lemma_readings_are_latest(r: Readings, ns: Seq<NotificationView>)
    ensures
        forall|i: int| #[trigger] last_weight_at(ns, i)
            ==> readings_after_all(r, ns).weight == weight_carried(ns[i]),
        (forall|i: int| 0 <= i < ns.len() ==> (#[trigger] weight_carried(ns[i])) is None)
            ==> readings_after_all(r, ns).weight == r.weight,
        forall|i: int| #[trigger] last_time_at(ns, i)
            ==> readings_after_all(r, ns).time == time_carried(ns[i]),
        (forall|i: int| 0 <= i < ns.len() ==> (#[trigger] time_carried(ns[i])) is None)
            ==> readings_after_all(r, ns).time == r.time,
{
    lemma_weight_is_latest(r, ns);
    lemma_time_is_latest(r, ns);
}

/// Commands the session sends to the scale.
#[derive(Debug, Clone, Copy, PartialEq, Eq, Structural)]
pub enum Command {
    Tare,
    StartTimer,
    StopTimer,
    ResetTimer,
    RequestSettings,
    Ident,
    RequestHeartbeat,
}

/// Events the session subscribes to: weight, timer and button notifications.
pub open spec fn heartbeat_request_payload() -> Seq<u8> {
    seq![0u8, 1, 1, 2, 2, 5, 3, 4]
}

/// The frame sent for each command.
pub open spec fn command_frame(c: Command) -> Seq<u8> {
    match c {
        Command::Tare => frame(CMD_TARE, seq![0u8]),
        Command::StartTimer => frame(CMD_TIMER, seq![0u8, 0]),
        Command::StopTimer => frame(CMD_TIMER, seq![0u8, 2]),
        Command::ResetTimer => frame(CMD_TIMER, seq![0u8, 1]),
        Command::RequestSettings => frame(CMD_SETTINGS, Seq::new(16, |i: int| 0u8)),
        Command::Ident => frame(CMD_IDENT, Seq::new(15, |i: int| 0x2du8)),
        Command::RequestHeartbeat => frame(
            crate::protocol::CMD_EVENT,
            event_payload(heartbeat_request_payload()),
        ),
    }
}

fn filled(len: usize, byte: u8) -> (r: Vec<u8>)
    ensures
        r@ == Seq::new(len as nat, |i: int| byte),
{
    let mut out: Vec<u8> = Vec::new();
    let mut i: usize = 0;
    while i < len
        invariant
            i <= len,
            out@ == Seq::new(i as nat, |k: int| byte),
        decreases len - i,
    {
        out.push(byte);
        i += 1;
        assert(out@ =~= Seq::new(i as nat, |k: int| byte));
    }
    out
}

impl Command {
    /// The frame that carries this command.
    pub fn frame(&self) -> (r: Vec<u8>)
        ensures
            r@ == command_frame(*self),
    {
        match *self {
            Command::Tare => {
                let p: Vec<u8> = vec![0];
                assert(p@ =~= seq![0u8]);
                encode(CMD_TARE, p.as_slice())
            },
            Command::StartTimer => {
                let p: Vec<u8> = vec![0, 0];
                assert(p@ =~= seq![0u8, 0]);
                encode(CMD_TIMER, p.as_slice())
            },
            Command::StopTimer => {
                let p: Vec<u8> = vec![0, 2];
                assert(p@ =~= seq![0u8, 2]);
                encode(CMD_TIMER, p.as_slice())
            },
            Command::ResetTimer => {
                let p: Vec<u8> = vec![0, 1];
                assert(p@ =~= seq![0u8, 1]);
                encode(CMD_TIMER, p.as_slice())
            },
            Command::RequestSettings => {
                let p = filled(16, 0);
                encode(CMD_SETTINGS, p.as_slice())
            },
            Command::Ident => {
                let p = filled(15, 0x2d);
                encode(CMD_IDENT, p.as_slice())
            },
            Command::RequestHeartbeat => {
                let p: Vec<u8> = vec![0, 1, 1, 2, 2, 5, 3, 4];
                assert(p@ =~= heartbeat_request_payload());
                encode_event_data(p.as_slice())
            },
        }
    }
}

/// Lifecycle of a session. Phases only move forward, except that any phase
/// can fall to `Disconnected`.
#[derive(Debug, Clone, Copy, PartialEq, Eq, Structural)]
pub enum Phase {
    Created,
    Connected,
    ServicesDiscovered,
    Subscribed,
    Streaming,
    Disconnected,
}

/// Transport work that the session asks its driver to perform next.
#[derive(Debug, Clone, Copy, PartialEq, Eq, Structural)]
pub enum Action {
    /// Open the transport connection.
    Connect,
    /// Enumerate services and characteristics.
    DiscoverServices,
    /// Subscribe to the command characteristic.
    Subscribe,
    /// Start the notification consumer, send the handshake frames in order,
    /// then wait the settle delay.
    StartStreaming,
    /// Nothing left to drive.
    Idle,
}

/// The action due in each phase.
pub open spec fn action_for(p: Phase) -> Action {
    match p {
        Phase::Created => Action::Connect,
        Phase::Connected => Action::DiscoverServices,
        Phase::ServicesDiscovered => Action::Subscribe,
        Phase::Subscribed => Action::StartStreaming,
        Phase::Streaming => Action::Idle,
        Phase::Disconnected => Action::Idle,
    }
}

/// The phase after the due action finished: its successor on success,
/// `Disconnected` on failure. Phases with nothing to drive stay.
pub open spec fn phase_after(p: Phase, succeeded: bool) -> Phase {
    match p {
        Phase::Streaming => Phase::Streaming,
        Phase::Disconnected => Phase::Disconnected,
        _ => if !succeeded {
            Phase::Disconnected
        } else {
            match p {
                Phase::Created => Phase::Connected,
                Phase::Connected => Phase::ServicesDiscovered,
                Phase::ServicesDiscovered => Phase::Subscribed,
                _ => Phase::Streaming,
            }
        },
    }
}

/// The commands of the handshake, in the order they are sent.
pub open spec fn handshake_commands() -> Seq<Command> {
    seq![Command::Ident, Command::RequestHeartbeat]
}

/// The frames sent when streaming starts: identify, then subscribe to events.
pub fn handshake() -> (r: Vec<Vec<u8>>)
    ensures
        r@.len() == handshake_commands().len(),
        forall|i: int| 0 <= i < r@.len() ==> (#[trigger] r@[i])@ == command_frame(handshake_commands()[i]),
{
    let mut r: Vec<Vec<u8>> = Vec::new();
    r.push(Command::Ident.frame());
    r.push(Command::RequestHeartbeat.frame());
    r
}

/// State of one device session.
pub struct Session {
    /// Identifier of the characteristic that carries commands and notifications.
    pub characteristic: u128,
    pub phase: Phase,
    pub readings: Readings,
}

impl Session {
    /// A new session over the characteristic `characteristic`, with nothing cached.
    pub fn new(characteristic: u128) -> (r: Session)
        ensures
            r.characteristic == characteristic,
            r.phase == Phase::Created,
            r.readings == (Readings { weight: None, time: None }),
    {
        Session { characteristic, phase: Phase::Created, readings: Readings { weight: None, time: None } }
    }

    /// The transport work due next.
    pub fn next_action(&self) -> (r: Action)
        ensures
            r == action_for(self.phase),
    {
        match self.phase {
            Phase::Created => Action::Connect,
            Phase::Connected => Action::DiscoverServices,
            Phase::ServicesDiscovered => Action::Subscribe,
            Phase::Subscribed => Action::StartStreaming,
            Phase::Streaming => Action::Idle,
            Phase::Disconnected => Action::Idle,
        }
    }

    /// Records whether the due action succeeded.
    pub fn record(&mut self, succeeded: bool)
        ensures
            final(self).phase == phase_after(old(self).phase, succeeded),
            final(self).characteristic == old(self).characteristic,
            final(self).readings == old(self).readings,
    {
        self.phase = match self.phase {
            Phase::Streaming => Phase::Streaming,
            Phase::Disconnected => Phase::Disconnected,
            Phase::Created => if succeeded { Phase::Connected } else { Phase::Disconnected },
            Phase::Connected => if succeeded { Phase::ServicesDiscovered } else { Phase::Disconnected },
            Phase::ServicesDiscovered => if succeeded { Phase::Subscribed } else { Phase::Disconnected },
            Phase::Subscribed => if succeeded { Phase::Streaming } else { Phase::Disconnected },
        };
    }

    /// Records that the link was lost. The cached readings stay.
    pub fn link_lost(&mut self)
        ensures
            final(self).phase == Phase::Disconnected,
            final(self).characteristic == old(self).characteristic,
            final(self).readings == old(self).readings,
    {
        self.phase = Phase::Disconnected;
    }

    /// Updates the cache from one decoded notification.
    pub fn apply(&mut self, n: &Notification)
        ensures
            final(self).readings == readings_after(old(self).readings, n@),
            final(self).phase == old(self).phase,
            final(self).characteristic == old(self).characteristic,
    {
        match n {
            Notification::Event(Message::Weight { value }) => {
                self.readings.weight = Some(*value);
            },
            Notification::Event(Message::Heartbeat { value, time }) => {
                if let Some(w) = value {
                    self.readings.weight = Some(*w);
                }
                if let Some(t) = time {
                    self.readings.time = Some(*t);
                }
            },
            Notification::Event(Message::Timer { time }) => {
                self.readings.time = Some(*time);
            },
            _ => {},
        }
    }

    /// Handles one notification from the transport. Frames from other
    /// characteristics are dropped (`None`); the rest are decoded, and a
    /// successful decode updates the cache. Decode failures leave it as it was.
    pub fn on_notification(&mut self, characteristic: u128, value: &[u8]) -> (r: Option<
        Result<Notification, DecodeError>,
    >)
        ensures
            final(self).phase == old(self).phase,
            final(self).characteristic == old(self).characteristic,
            characteristic != old(self).characteristic ==> r is None && final(self).readings
                == old(self).readings,
            characteristic == old(self).characteristic ==> (r matches Some(res)
                && notification_result_view(res) == notification_of(value@)),
            characteristic == old(self).characteristic ==> final(self).readings
                == readings_after_frame(old(self).readings, value@),
    {
        if characteristic != self.characteristic {
            return None;
        }
        let res = parse_notification(value);
        if let Ok(n) = &res {
            self.apply(n);
        }
        Some(res)
    }

    /// The latest cached weight, in ten-thousandths.
    pub fn latest_weight(&self) -> (r: Option<i32>)
        ensures
            r == self.readings.weight,
    {
        self.readings.weight
    }

    /// The latest cached time, in tenths of a second.
    pub fn latest_time(&self) -> (r: Option<u32>)
        ensures
            r == self.readings.time,
    {
        self.readings.time
    }
}

} // verus!
