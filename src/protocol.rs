//! Wire-level constants of the scale protocol.
use vstd::prelude::*;

verus! {

/// First sentinel byte of every command frame.
pub const MAGIC1: u8 = 0xef;

/// Second sentinel byte of every command frame.
pub const MAGIC2: u8 = 0xdd;

/// Command selector: tare.
pub const CMD_TARE: u8 = 4;

/// Command selector: request the device settings.
pub const CMD_SETTINGS: u8 = 6;

/// Command selector: identify.
pub const CMD_IDENT: u8 = 11;

/// Command selector: event-configuration wrapper.
pub const CMD_EVENT: u8 = 12;

/// Command selector: timer action.
pub const CMD_TIMER: u8 = 13;

/// Leading byte of an inbound settings frame.
pub const FRAME_SETTINGS: u8 = 9;

/// Leading byte of an inbound event frame.
pub const FRAME_EVENT: u8 = 8;

/// Total length of an inbound settings frame.
pub const SETTINGS_LEN: usize = 11;

/// Bluetooth 16-bit short identifier of the command/notification characteristic.
pub const COMMAND_CHARACTERISTIC_SHORT: u16 = 0x2a80;

/// Pause after the handshake writes before the session counts as ready.
pub const SETTLE_DELAY_MS: u64 = 100;

/// The message types carried by an inbound event frame.
#[derive(Debug, Clone, Copy, PartialEq, Eq, Structural)]
pub enum MsgType {
    Weight,
    Heartbeat,
    Time,
    Button,
}

/// Selector byte of each message type.
pub open spec fn msg_type_code(m: MsgType) -> u8 {
    match m {
        MsgType::Weight => 5,
        MsgType::Heartbeat => 11,
        MsgType::Time => 7,
        MsgType::Button => 8,
    }
}

impl MsgType {
    /// The selector byte of this message type.
    pub fn value(&self) -> (r: u8)
        ensures
            r == msg_type_code(*self),
    {
        match *self {
            MsgType::Weight => 5,
            MsgType::Heartbeat => 11,
            MsgType::Time => 7,
            MsgType::Button => 8,
        }
    }

    /// The message type whose selector byte is `code`, if any.
    pub fn from_value(code: u8) -> (r: Option<MsgType>)
        ensures
            r matches Some(m) ==> msg_type_code(m) == code,
            r is None ==> (forall|m: MsgType| msg_type_code(m) != code),
    {
        if code == 5 {
            Some(MsgType::Weight)
        } else if code == 11 {
            Some(MsgType::Heartbeat)
        } else if code == 7 {
            Some(MsgType::Time)
        } else if code == 8 {
            Some(MsgType::Button)
        } else {
            proof {
                assert forall|m: MsgType| msg_type_code(m) != code by {
                    match m {
                        MsgType::Weight => {},
                        MsgType::Heartbeat => {},
                        MsgType::Time => {},
                        MsgType::Button => {},
                    }
                }
            }
            None
        }
    }
}

/// The buttons of the scale that report a press.
#[derive(Debug, Clone, Copy, PartialEq, Eq, Structural)]
pub enum ButtonEvent {
    Tare,
    Start,
    Stop,
    Reset,
}

/// Code pair that identifies each button in a button message.
pub open spec fn button_code(b: ButtonEvent) -> (u8, u8) {
    match b {
        ButtonEvent::Tare => (0, 5),
        ButtonEvent::Start => (8, 5),
        ButtonEvent::Stop => (10, 7),
        ButtonEvent::Reset => (9, 7),
    }
}

impl ButtonEvent {
    /// The code pair of this button.
    pub fn value(&self) -> (r: (u8, u8))
        ensures
            r == button_code(*self),
    {
        match *self {
            ButtonEvent::Tare => (0, 5),
            ButtonEvent::Start => (8, 5),
            ButtonEvent::Stop => (10, 7),
            ButtonEvent::Reset => (9, 7),
        }
    }

    /// The button identified by the code pair `(a, b)`, if any.
    pub fn from_value(a: u8, b: u8) -> (r: Option<ButtonEvent>)
        ensures
            r matches Some(e) ==> button_code(e) == (a, b),
            r is None ==> (forall|e: ButtonEvent| button_code(e) != (a, b)),
    {
        if a == 0 && b == 5 {
            Some(ButtonEvent::Tare)
        } else if a == 8 && b == 5 {
            Some(ButtonEvent::Start)
        } else if a == 10 && b == 7 {
            Some(ButtonEvent::Stop)
        } else if a == 9 && b == 7 {
            Some(ButtonEvent::Reset)
        } else {
            proof {
                assert forall|e: ButtonEvent| button_code(e) != (a, b) by {
                    match e {
                        ButtonEvent::Tare => {},
                        ButtonEvent::Start => {},
                        ButtonEvent::Stop => {},
                        ButtonEvent::Reset => {},
                    }
                }
            }
            None
        }
    }
}

/// Advertised-name prefix of the vendor's scales: "ACAIA".
pub open spec fn scale_name_prefix() -> Seq<u8> {
    seq![0x41u8, 0x43, 0x41, 0x49, 0x41]
}

/// Whether an advertised name (as UTF-8 bytes) starts with the vendor prefix.
pub fn is_scale_name(name: &[u8]) -> (r: bool)
    ensures
        r == (name@.len() >= scale_name_prefix().len() && name@.subrange(
            0,
            scale_name_prefix().len() as int,
        ) == scale_name_prefix()),
{
    let prefix: [u8; 5] = [0x41, 0x43, 0x41, 0x49, 0x41];
    assert(prefix@ =~= scale_name_prefix());
    if name.len() < 5 {
        return false;
    }
    let mut i: usize = 0;
    while i < 5
        invariant
            i <= 5 <= name@.len(),
            prefix@ == scale_name_prefix(),
            name@.subrange(0, i as int) == prefix@.subrange(0, i as int),
        decreases 5 - i,
    {
        if name[i] != prefix[i] {
            assert(name@.subrange(0, 5)[i as int] != scale_name_prefix()[i as int]);
            return false;
        }
        assert(name@.subrange(0, i as int + 1) =~= prefix@.subrange(0, i as int + 1));
        i += 1;
    }
    assert(prefix@.subrange(0, 5) =~= prefix@);
    true
}

} // verus!
