use argon1d::message::{frame_len, Message, ProtocolError};

#[test]
fn stop_round_trip() {
    let frame = Message::Stop.encode();
    assert_eq!(frame, vec![0u8]);
    assert_eq!(Message::decode(&frame), Ok(Message::Stop));
}

#[test]
fn fan_round_trip_every_speed() {
    for k in 0..=100u8 {
        let frame = Message::Fan(k).encode();
        assert_eq!(frame, vec![1u8, k]);
        assert_eq!(Message::decode(&frame), Ok(Message::Fan(k)));
    }
}

#[test]
fn malformed_leading_byte_is_protocol_error() {
    assert_eq!(
        Message::decode(&vec![2u8]),
        Err(ProtocolError::InvalidTag)
    );
    assert_eq!(
        Message::decode(&vec![255u8, 1u8]),
        Err(ProtocolError::InvalidTag)
    );
    assert_eq!(
        Message::decode(&vec![7u8, 3u8, 9u8]),
        Err(ProtocolError::InvalidTag)
    );
}

#[test]
fn listener_decodes_valid_frame_after_malformed_one() {
    assert_eq!(
        Message::decode(&vec![9u8]),
        Err(ProtocolError::InvalidTag)
    );
    assert_eq!(Message::decode(&vec![0u8]), Ok(Message::Stop));
    assert_eq!(Message::decode(&vec![1u8, 30u8]), Ok(Message::Fan(30)));
}

#[test]
fn truncated_frames_are_refused() {
    assert_eq!(
        Message::decode(&Vec::new()),
        Err(ProtocolError::Truncated)
    );
    assert_eq!(
        Message::decode(&vec![1u8]),
        Err(ProtocolError::Truncated)
    );
}

#[test]
fn stop_frame_ignores_trailing_bytes() {
    assert_eq!(Message::decode(&vec![0u8, 42u8]), Ok(Message::Stop));
}

#[test]
fn frame_len_per_tag() {
    assert_eq!(frame_len(0), Some(1));
    assert_eq!(frame_len(1), Some(2));
    assert_eq!(frame_len(2), None);
    assert_eq!(frame_len(255), None);
}
