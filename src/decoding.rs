//! Inbound notification frames and their payload decoders.
//!
//! Weights are exact fixed-point values in ten-thousandths of the display
//! unit; times are in tenths of a second.
use vstd::prelude::*;
use crate::protocol::{
    MsgType, ButtonEvent, button_code, msg_type_code, FRAME_SETTINGS, FRAME_EVENT, SETTINGS_LEN,
};

verus! {

/// Why a notification frame could not be decoded.
#[derive(Debug, Clone, Copy, PartialEq, Eq, Structural)]
pub enum DecodeError {
    EmptyPayload,
    WrongLength,
    PayloadTooShort,
    InvalidUnit,
    UnknownHeartbeatSubtype,
}

/// Display units reported in the settings frame.
#[derive(Debug, Clone, Copy, PartialEq, Eq, Structural)]
pub enum Units {
    Grams,
    Ounces,
    Unknown,
}

/// Device settings, decoded from a settings frame.
#[derive(Debug, Clone, Copy, PartialEq, Eq, Structural)]
pub struct Settings {
    /// Battery level in percent, top bit masked off.
    pub battery: u8,
    pub units: Units,
    /// Auto-off delay in minutes.
    pub auto_off: u16,
    pub beep_on: bool,
}

/// A decoded event message.
#[derive(Debug, Clone, PartialEq, Eq)]
#[allow(inconsistent_fields)]
pub enum Message {
    Weight { value: i32 },
    Heartbeat { value: Option<i32>, time: Option<u32> },
    Timer { time: u32 },
    /// `button` is `None` for a code pair that names no known button.
    Button { button: Option<ButtonEvent>, value: Option<i32>, time: Option<u32> },
    Unknown { msg_type: u8, payload: Vec<u8> },
}

/// Mathematical model of a [`Message`].
#[allow(inconsistent_fields)]
pub enum MessageView {
    Weight { value: i32 },
    Heartbeat { value: Option<i32>, time: Option<u32> },
    Timer { time: u32 },
    Button { button: Option<ButtonEvent>, value: Option<i32>, time: Option<u32> },
    Unknown { msg_type: u8, payload: Seq<u8> },
}

impl View for Message {
    type V = MessageView;

    open spec fn view(&self) -> MessageView {
        match self {
            Message::Weight { value } => MessageView::Weight { value: *value },
            Message::Heartbeat { value, time } => MessageView::Heartbeat { value: *value, time: *time },
            Message::Timer { time } => MessageView::Timer { time: *time },
            Message::Button { button, value, time } => MessageView::Button {
                button: *button,
                value: *value,
                time: *time,
            },
            Message::Unknown { msg_type, payload } => MessageView::Unknown {
                msg_type: *msg_type,
                payload: payload@,
            },
        }
    }
}

/// What one inbound frame carries.
#[derive(Debug, Clone, PartialEq, Eq)]
pub enum Notification {
    Settings(Settings),
    Event(Message),
    /// A frame with a leading byte this codec does not handle.
    Ignored,
}

/// Mathematical model of a [`Notification`].
pub enum NotificationView {
    Settings(Settings),
    Event(MessageView),
    Ignored,
}

impl View for Notification {
    type V = NotificationView;

    open spec fn view(&self) -> NotificationView {
        match self {
            Notification::Settings(s) => NotificationView::Settings(*s),
            Notification::Event(m) => NotificationView::Event(m@),
            Notification::Ignored => NotificationView::Ignored,
        }
    }
}

/// Model of a message decoding result.
pub open spec fn message_result_view(r: Result<Message, DecodeError>) -> Result<MessageView, DecodeError> {
    match r {
        Ok(m) => Ok(m@),
        Err(e) => Err(e),
    }
}

/// Model of a notification decoding result.
pub open spec fn notification_result_view(r: Result<Notification, DecodeError>) -> Result<
    NotificationView,
    DecodeError,
> {
    match r {
        Ok(n) => Ok(n@),
        Err(e) => Err(e),
    }
}

/// Little-endian 16-bit value of two bytes.
pub open spec fn le16(lo: u8, hi: u8) -> int {
    lo as int + 256 * hi as int
}

/// Whether a weight unit byte selects one of the four decimal scales.
pub open spec fn valid_unit(unit: u8) -> bool {
    1 <= unit <= 4
}

/// Factor from a raw weight with `unit` decimals to ten-thousandths.
pub open spec fn unit_factor(unit: u8) -> int {
    if unit == 1 {
        1000
    } else if unit == 2 {
        100
    } else if unit == 3 {
        10
    } else {
        1
    }
}

/// Whether the sign byte of a weight marks it negative.
pub open spec fn is_negative(flags: u8) -> bool {
    flags & 2 == 2
}

/// Weight in ten-thousandths carried by a payload of at least six bytes.
pub open spec fn weight_value(b: Seq<u8>) -> int {
    let magnitude = le16(b[0], b[1]) * unit_factor(b[4]);
    if is_negative(b[5]) {
        -magnitude
    } else {
        magnitude
    }
}

/// Result of decoding a weight payload.
pub open spec fn weight_of(b: Seq<u8>) -> Result<i32, DecodeError> {
    if b.len() < 6 {
        Err(DecodeError::PayloadTooShort)
    } else if !valid_unit(b[4]) {
        Err(DecodeError::InvalidUnit)
    } else {
        Ok(weight_value(b) as i32)
    }
}

/// Time in tenths of a second carried by a payload of at least three bytes:
/// minutes, seconds, tenths.
pub open spec fn time_value(b: Seq<u8>) -> int {
    b[0] as int * 600 + b[1] as int * 10 + b[2] as int
}

/// Result of decoding a time payload.
pub open spec fn time_of(b: Seq<u8>) -> Result<u32, DecodeError> {
    if b.len() < 3 {
        Err(DecodeError::PayloadTooShort)
    } else {
        Ok(time_value(b) as u32)
    }
}

/// Units named by the units byte of a settings frame.
pub open spec fn units_of(code: u8) -> Units {
    if code == 2 {
        Units::Grams
    } else if code == 5 {
        Units::Ounces
    } else {
        Units::Unknown
    }
}

/// Result of decoding a settings frame.
pub open spec fn settings_of(b: Seq<u8>) -> Result<Settings, DecodeError> {
    if b.len() != SETTINGS_LEN {
        Err(DecodeError::WrongLength)
    } else {
        Ok(
            Settings {
                battery: b[1] & 0x7f,
                units: units_of(b[2]),
                auto_off: (b[4] as int * 5) as u16,
                beep_on: b[6] == 1,
            },
        )
    }
}

/// Message whose weight, decoded from `b`, is wrapped by `f`.
pub open spec fn with_weight(b: Seq<u8>, f: spec_fn(i32) -> MessageView) -> Result<MessageView, DecodeError> {
    match weight_of(b) {
        Ok(w) => Ok(f(w)),
        Err(e) => Err(e),
    }
}

/// Message whose time, decoded from `b`, is wrapped by `f`.
pub open spec fn with_time(b: Seq<u8>, f: spec_fn(u32) -> MessageView) -> Result<MessageView, DecodeError> {
    match time_of(b) {
        Ok(t) => Ok(f(t)),
        Err(e) => Err(e),
    }
}

/// Result of decoding the data of a heartbeat message.
pub open spec fn heartbeat_of(d: Seq<u8>) -> Result<MessageView, DecodeError> {
    if d.len() < 3 {
        Err(DecodeError::PayloadTooShort)
    } else if d[2] == 5 {
        with_weight(d.subrange(3, d.len() as int), |w: i32| MessageView::Heartbeat { value: Some(w), time: None })
    } else if d[2] == 7 {
        with_time(d.subrange(3, d.len() as int), |t: u32| MessageView::Heartbeat { value: None, time: Some(t) })
    } else {
        Err(DecodeError::UnknownHeartbeatSubtype)
    }
}

/// Result of decoding the data of a button message.
pub open spec fn button_of(d: Seq<u8>) -> Result<MessageView, DecodeError> {
    if d.len() < 2 {
        Err(DecodeError::PayloadTooShort)
    } else {
        let code = (d[0], d[1]);
        if code == button_code(ButtonEvent::Tare) || code == button_code(ButtonEvent::Start) {
            let button = if code == button_code(ButtonEvent::Tare) {
                ButtonEvent::Tare
            } else {
                ButtonEvent::Start
            };
            with_weight(
                d.subrange(2, d.len() as int),
                |w: i32| MessageView::Button { button: Some(button), value: Some(w), time: None },
            )
        } else if code == button_code(ButtonEvent::Stop) || code == button_code(ButtonEvent::Reset) {
            let button = if code == button_code(ButtonEvent::Stop) {
                ButtonEvent::Stop
            } else {
                ButtonEvent::Reset
            };
            if d.len() < 6 {
                Err(DecodeError::PayloadTooShort)
            } else {
                let t = time_value(d.subrange(2, 6)) as u32;
                with_weight(
                    d.subrange(6, d.len() as int),
                    |w: i32| MessageView::Button { button: Some(button), value: Some(w), time: Some(t) },
                )
            }
        } else {
            Ok(MessageView::Button { button: None, value: None, time: None })
        }
    }
}

/// Result of decoding an event frame: selector at `b[1]`, data from `b[2]` on.
pub open spec fn message_of(b: Seq<u8>) -> Result<MessageView, DecodeError> {
    if b.len() == 0 {
        Err(DecodeError::EmptyPayload)
    } else if b.len() < 2 {
        Err(DecodeError::PayloadTooShort)
    } else {
        let t = b[1];
        let d = b.subrange(2, b.len() as int);
        if t == msg_type_code(MsgType::Weight) {
            with_weight(d, |w: i32| MessageView::Weight { value: w })
        } else if t == msg_type_code(MsgType::Heartbeat) {
            heartbeat_of(d)
        } else if t == msg_type_code(MsgType::Time) {
            with_time(d, |x: u32| MessageView::Timer { time: x })
        } else if t == msg_type_code(MsgType::Button) {
            button_of(d)
        } else {
            Ok(MessageView::Unknown { msg_type: t, payload: d })
        }
    }
}

/// Result of decoding any inbound frame, dispatched on its leading byte.
pub open spec fn notification_of(b: Seq<u8>) -> Result<NotificationView, DecodeError> {
    if b.len() == 0 {
        Err(DecodeError::EmptyPayload)
    } else if b[0] == FRAME_SETTINGS {
        match settings_of(b) {
            Ok(s) => Ok(NotificationView::Settings(s)),
            Err(e) => Err(e),
        }
    } else if b[0] == FRAME_EVENT {
        match message_of(b) {
            Ok(m) => Ok(NotificationView::Event(m)),
            Err(e) => Err(e),
        }
    } else {
        Ok(NotificationView::Ignored)
    }
}

/// A decoded heartbeat carries a weight or a time, never both and never neither.
pub proof fn lemma_heartbeat_carries_one(b: Seq<u8>)
    ensures
        message_of(b) matches Ok(MessageView::Heartbeat { value, time }) ==> (value is Some
            != time is Some),
{
}

/// Decodes a fixed-point weight: a little-endian magnitude in bytes 0 and 1,
/// the number of decimals (1 to 4) in byte 4, the sign in bit 1 of byte 5.
/// The result is in ten-thousandths.
pub fn decode_weight(b: &[u8]) -> (r: Result<i32, DecodeError>)
    ensures
        r == weight_of(b@),
        r matches Ok(w) ==> w as int == weight_value(b@),
{
    if b.len() < 6 {
        return Err(DecodeError::PayloadTooShort);
    }
    let lo = b[0];
    let hi = b[1];
    let raw: u16 = (hi as u16) << 8 | lo as u16;
    assert(raw == lo as u16 + 256 * (hi as u16)) by (bit_vector)
        requires
            raw == (hi as u16) << 8 | lo as u16,
    ;
    let factor: i32 = match b[4] {
        1 => 1000,
        2 => 100,
        3 => 10,
        4 => 1,
        _ => return Err(DecodeError::InvalidUnit),
    };
    let magnitude: i32 = raw as i32 * factor;
    if b[5] & 0x02 == 0x02 {
        Ok(-magnitude)
    } else {
        Ok(magnitude)
    }
}

/// Decodes a time of minutes, seconds and tenths, in tenths of a second.
pub fn decode_time(b: &[u8]) -> (r: Result<u32, DecodeError>)
    ensures
        r == time_of(b@),
        r matches Ok(t) ==> t as int == time_value(b@),
{
    if b.len() < 3 {
        return Err(DecodeError::PayloadTooShort);
    }
    Ok(b[0] as u32 * 600 + b[1] as u32 * 10 + b[2] as u32)
}

/// Decodes a settings frame, which is exactly eleven bytes long.
pub fn decode_settings(b: &[u8]) -> (r: Result<Settings, DecodeError>)
    ensures
        r == settings_of(b@),
{
    if b.len() != SETTINGS_LEN {
        return Err(DecodeError::WrongLength);
    }
    let units = match b[2] {
        2 => Units::Grams,
        5 => Units::Ounces,
        _ => Units::Unknown,
    };
    Ok(
        Settings {
            battery: b[1] & 0x7f,
            units,
            auto_off: b[4] as u16 * 5,
            beep_on: b[6] == 1,
        },
    )
}

fn decode_heartbeat(d: &[u8]) -> (r: Result<Message, DecodeError>)
    ensures
        message_result_view(r) == heartbeat_of(d@),
{
    if d.len() < 3 {
        return Err(DecodeError::PayloadTooShort);
    }
    let rest = &d[3..d.len()];
    match d[2] {
        5 => match decode_weight(rest) {
            Ok(w) => Ok(Message::Heartbeat { value: Some(w), time: None }),
            Err(e) => Err(e),
        },
        7 => match decode_time(rest) {
            Ok(t) => Ok(Message::Heartbeat { value: None, time: Some(t) }),
            Err(e) => Err(e),
        },
        _ => Err(DecodeError::UnknownHeartbeatSubtype),
    }
}

fn decode_button(d: &[u8]) -> (r: Result<Message, DecodeError>)
    ensures
        message_result_view(r) == button_of(d@),
{
    if d.len() < 2 {
        return Err(DecodeError::PayloadTooShort);
    }
    match ButtonEvent::from_value(d[0], d[1]) {
        Some(button) => match button {
            ButtonEvent::Tare | ButtonEvent::Start => {
                match decode_weight(&d[2..d.len()]) {
                    Ok(w) => Ok(Message::Button { button: Some(button), value: Some(w), time: None }),
                    Err(e) => Err(e),
                }
            },
            ButtonEvent::Stop | ButtonEvent::Reset => {
                if d.len() < 6 {
                    return Err(DecodeError::PayloadTooShort);
                }
                let t = match decode_time(&d[2..6]) {
                    Ok(t) => t,
                    Err(e) => return Err(e),
                };
                match decode_weight(&d[6..d.len()]) {
                    Ok(w) => Ok(Message::Button { button: Some(button), value: Some(w), time: Some(t) }),
                    Err(e) => Err(e),
                }
            },
        },
        None => Ok(Message::Button { button: None, value: None, time: None }),
    }
}

fn copy_bytes(d: &[u8]) -> (r: Vec<u8>)
    ensures
        r@ == d@,
{
    let mut out: Vec<u8> = Vec::new();
    let mut i: usize = 0;
    while i < d.len()
        invariant
            i <= d@.len(),
            out@ == d@.take(i as int),
        decreases d@.len() - i,
    {
        out.push(d[i]);
        i += 1;
        assert(out@ =~= d@.take(i as int));
    }
    assert(d@.take(i as int) =~= d@);
    out
}

/// Decodes an event frame: `b[1]` selects the message type, the data starts
/// at `b[2]`. Unknown selectors pass their data through unchanged.
pub fn decode_message(b: &[u8]) -> (r: Result<Message, DecodeError>)
    ensures
        message_result_view(r) == message_of(b@),
{
    if b.len() == 0 {
        return Err(DecodeError::EmptyPayload);
    }
    if b.len() < 2 {
        return Err(DecodeError::PayloadTooShort);
    }
    let msg_type = b[1];
    let data = &b[2..b.len()];
    match MsgType::from_value(msg_type) {
        Some(MsgType::Weight) => match decode_weight(data) {
            Ok(w) => Ok(Message::Weight { value: w }),
            Err(e) => Err(e),
        },
        Some(MsgType::Heartbeat) => decode_heartbeat(data),
        Some(MsgType::Time) => match decode_time(data) {
            Ok(t) => Ok(Message::Timer { time: t }),
            Err(e) => Err(e),
        },
        Some(MsgType::Button) => decode_button(data),
        None => {
            let payload = copy_bytes(data);
            Ok(Message::Unknown { msg_type, payload })
        },
    }
}

/// Decodes one inbound frame by its leading byte: settings frames, event
/// frames, and any other frame as [`Notification::Ignored`].
pub fn parse_notification(b: &[u8]) -> (r: Result<Notification, DecodeError>)
    ensures
        notification_result_view(r) == notification_of(b@),
{
    if b.len() == 0 {
        return Err(DecodeError::EmptyPayload);
    }
    if b[0] == FRAME_SETTINGS {
        match decode_settings(b) {
            Ok(s) => Ok(Notification::Settings(s)),
            Err(e) => Err(e),
        }
    } else if b[0] == FRAME_EVENT {
        match decode_message(b) {
            Ok(m) => Ok(Notification::Event(m)),
            Err(e) => Err(e),
        }
    } else {
        Ok(Notification::Ignored)
    }
}

} // verus!
