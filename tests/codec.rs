use acaia::decoding::{
    decode_message, decode_settings, decode_time, decode_weight, parse_notification, DecodeError,
    Message, Notification, Settings, Units,
};
use acaia::encoding::{encode, encode_event_data};
use acaia::protocol::{is_scale_name, ButtonEvent, MsgType};

#[test]
fn encode_single_byte_payload() {
    assert_eq!(encode(4, &[0]), vec![0xef, 0xdd, 4, 0, 0, 0]);
}

#[test]
fn encode_splits_checksums_by_parity() {
    assert_eq!(encode(13, &[0, 2]), vec![0xef, 0xdd, 13, 0, 2, 0, 2]);
    assert_eq!(encode(7, &[1, 2, 3, 4, 5]), vec![0xef, 0xdd, 7, 1, 2, 3, 4, 5, 9, 6]);
}

#[test]
fn encode_empty_payload() {
    assert_eq!(encode(6, &[]), vec![0xef, 0xdd, 6, 0, 0]);
}

#[test]
fn encode_checksum_wraps_modulo_256() {
    assert_eq!(encode(1, &[200, 255, 100, 255]), vec![0xef, 0xdd, 1, 200, 255, 100, 255, 44, 254]);
}

#[test]
fn encode_checksum_recomputed_independently() {
    let payload: Vec<u8> = (0..600u32).map(|i| (i * 37 % 256) as u8).collect();
    let frame = encode(9, &payload);
    assert_eq!(frame.len(), payload.len() + 5);
    let even: u32 = payload.iter().step_by(2).map(|&b| b as u32).sum();
    let odd: u32 = payload.iter().skip(1).step_by(2).map(|&b| b as u32).sum();
    assert_eq!(frame[payload.len() + 3] as u32, even % 256);
    assert_eq!(frame[payload.len() + 4] as u32, odd % 256);
    assert_eq!(&frame[3..payload.len() + 3], payload.as_slice());
}

#[test]
fn encode_is_deterministic() {
    let payload = [0x2d, 3, 250, 7];
    assert_eq!(encode(11, &payload), encode(11, &payload));
}

#[test]
fn event_data_prefixes_length_plus_one() {
    let (a, b, c) = (17u8, 200u8, 3u8);
    assert_eq!(encode_event_data(&[a, b, c]), encode(12, &[4, a, b, c]));
}

#[test]
fn event_data_heartbeat_request_bytes() {
    assert_eq!(
        encode_event_data(&[0, 1, 1, 2, 2, 5, 3, 4]),
        vec![0xef, 0xdd, 12, 9, 0, 1, 1, 2, 2, 5, 3, 4, 21, 6]
    );
}

#[test]
fn weight_one_gram() {
    assert_eq!(decode_weight(&[0x64, 0x00, 0x00, 0x00, 2, 0x00]), Ok(10000));
}

#[test]
fn weight_negative() {
    assert_eq!(decode_weight(&[0x64, 0x00, 0x00, 0x00, 2, 0x02]), Ok(-10000));
}

#[test]
fn weight_each_unit() {
    let raw = [0x39, 0x30, 0, 0];
    let with_unit = |u: u8| {
        let mut b = raw.to_vec();
        b.push(u);
        b.push(0);
        decode_weight(&b)
    };
    assert_eq!(with_unit(1), Ok(12345000));
    assert_eq!(with_unit(2), Ok(1234500));
    assert_eq!(with_unit(3), Ok(123450));
    assert_eq!(with_unit(4), Ok(12345));
}

#[test]
fn weight_largest_magnitude() {
    assert_eq!(decode_weight(&[0xff, 0xff, 0, 0, 1, 0x02]), Ok(-65535000));
}

#[test]
fn weight_too_short() {
    assert_eq!(decode_weight(&[0x64, 0, 0, 0, 2]), Err(DecodeError::PayloadTooShort));
}

#[test]
fn weight_invalid_unit() {
    assert_eq!(decode_weight(&[0x64, 0, 0, 0, 9, 0]), Err(DecodeError::InvalidUnit));
}

#[test]
fn time_minutes_seconds_tenths() {
    assert_eq!(decode_time(&[1, 30, 5]), Ok(905));
}

#[test]
fn time_too_short() {
    assert_eq!(decode_time(&[1, 30]), Err(DecodeError::PayloadTooShort));
}

#[test]
fn notification_weight() {
    assert_eq!(
        parse_notification(&[8, 5, 0x64, 0x00, 0x00, 0x00, 2, 0x00]),
        Ok(Notification::Event(Message::Weight { value: 10000 }))
    );
}

#[test]
fn notification_settings() {
    assert_eq!(
        parse_notification(&[9, 0x50, 2, 0, 0, 4, 0, 1, 0, 0, 0]),
        Ok(Notification::Settings(Settings {
            battery: 0x50,
            units: Units::Grams,
            auto_off: 0,
            beep_on: false,
        }))
    );
    assert_eq!(
        parse_notification(&[9, 0x50, 2, 0, 4, 0, 0, 1, 0, 0, 0]).map(|n| match n {
            Notification::Settings(s) => s.auto_off,
            _ => 0xffff,
        }),
        Ok(20)
    );
}

#[test]
fn settings_masks_battery_and_reads_flags() {
    assert_eq!(
        decode_settings(&[9, 0xd0, 5, 0, 255, 4, 1, 0, 0, 0, 0]),
        Ok(Settings { battery: 0x50, units: Units::Ounces, auto_off: 1275, beep_on: true })
    );
    assert_eq!(decode_settings(&[9, 1, 3, 0, 0, 0, 2, 0, 0, 0, 0]).map(|s| s.units), Ok(Units::Unknown));
}

#[test]
fn settings_wrong_length() {
    assert_eq!(decode_settings(&[9, 0x50, 2, 0, 0, 4, 0, 1, 0, 0]), Err(DecodeError::WrongLength));
    assert_eq!(
        parse_notification(&[9, 0x50, 2, 0, 0, 4, 0, 1, 0, 0]),
        Err(DecodeError::WrongLength)
    );
}

#[test]
fn notification_empty() {
    assert_eq!(parse_notification(&[]), Err(DecodeError::EmptyPayload));
    assert_eq!(decode_message(&[]), Err(DecodeError::EmptyPayload));
}

#[test]
fn notification_other_leading_byte_ignored() {
    assert_eq!(parse_notification(&[7, 1, 2]), Ok(Notification::Ignored));
}

#[test]
fn event_frame_without_selector() {
    assert_eq!(parse_notification(&[8]), Err(DecodeError::PayloadTooShort));
}

#[test]
fn heartbeat_weight() {
    assert_eq!(
        decode_message(&[8, 11, 0, 0, 5, 0x64, 0, 0, 0, 1, 0]),
        Ok(Message::Heartbeat { value: Some(100000), time: None })
    );
}

#[test]
fn heartbeat_time() {
    assert_eq!(
        decode_message(&[8, 11, 0, 0, 7, 2, 3, 4]),
        Ok(Message::Heartbeat { value: None, time: Some(1234) })
    );
}

#[test]
fn heartbeat_errors() {
    assert_eq!(decode_message(&[8, 11, 0, 0, 1]), Err(DecodeError::UnknownHeartbeatSubtype));
    assert_eq!(decode_message(&[8, 11, 0, 0]), Err(DecodeError::PayloadTooShort));
    assert_eq!(decode_message(&[8, 11, 0, 0, 5, 1, 2]), Err(DecodeError::PayloadTooShort));
}

#[test]
fn timer_message() {
    assert_eq!(decode_message(&[8, 7, 0, 12, 9]), Ok(Message::Timer { time: 129 }));
}

#[test]
fn button_tare_and_start() {
    assert_eq!(
        decode_message(&[8, 8, 0, 5, 0x64, 0, 0, 0, 2, 0]),
        Ok(Message::Button { button: Some(ButtonEvent::Tare), value: Some(10000), time: None })
    );
    assert_eq!(
        decode_message(&[8, 8, 8, 5, 0x64, 0, 0, 0, 2, 2]),
        Ok(Message::Button { button: Some(ButtonEvent::Start), value: Some(-10000), time: None })
    );
}

#[test]
fn button_stop_and_reset() {
    assert_eq!(
        decode_message(&[8, 8, 10, 7, 0, 5, 3, 0, 0x64, 0, 0, 0, 3, 0]),
        Ok(Message::Button { button: Some(ButtonEvent::Stop), value: Some(1000), time: Some(53) })
    );
    assert_eq!(
        decode_message(&[8, 8, 9, 7, 1, 0, 0, 0, 0, 0, 0, 0, 4, 0]),
        Ok(Message::Button { button: Some(ButtonEvent::Reset), value: Some(0), time: Some(600) })
    );
    assert_eq!(decode_message(&[8, 8, 10, 7, 0, 5]), Err(DecodeError::PayloadTooShort));
}

#[test]
fn button_unknown_code() {
    assert_eq!(
        decode_message(&[8, 8, 1, 1]),
        Ok(Message::Button { button: None, value: None, time: None })
    );
    assert_eq!(decode_message(&[8, 8, 1]), Err(DecodeError::PayloadTooShort));
}

#[test]
fn unknown_message_passes_data_through() {
    assert_eq!(
        decode_message(&[8, 42, 1, 2, 3]),
        Ok(Message::Unknown { msg_type: 42, payload: vec![1, 2, 3] })
    );
}

#[test]
fn selector_values() {
    assert_eq!(MsgType::Weight.value(), 5);
    assert_eq!(MsgType::Heartbeat.value(), 11);
    assert_eq!(MsgType::Time.value(), 7);
    assert_eq!(MsgType::Button.value(), 8);
    assert_eq!(MsgType::from_value(7), Some(MsgType::Time));
    assert_eq!(MsgType::from_value(6), None);
    assert_eq!(ButtonEvent::Stop.value(), (10, 7));
    assert_eq!(ButtonEvent::from_value(9, 7), Some(ButtonEvent::Reset));
    assert_eq!(ButtonEvent::from_value(9, 5), None);
}

#[test]
fn scale_name_prefix() {
    assert!(is_scale_name(b"ACAIA"));
    assert!(is_scale_name(b"ACAIA LUNAR 123"));
    assert!(!is_scale_name(b"ACAI"));
    assert!(!is_scale_name(b"acaia lunar"));
    assert!(!is_scale_name(b"PYXIS ACAIA"));
    assert!(!is_scale_name(b""));
}
