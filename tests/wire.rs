use musicquiz::codec::{
    command_from_tag, command_tag, has_payload, read_blob, read_message, read_u64_be,
    write_blob, write_command, write_frame, write_u64_be, Command, Message, WireError,
};

#[test]
fn tags_match_the_wire_table() {
    assert_eq!(command_tag(Command::Play), 1);
    assert_eq!(command_tag(Command::Transfer), 2);
    assert_eq!(command_tag(Command::Pause), 3);
    assert_eq!(command_tag(Command::Repeat), 4);
    assert_eq!(command_tag(Command::Reveal), 5);
}

#[test]
fn every_tag_decodes_back() {
    for cmd in [Command::Play, Command::Transfer, Command::Pause, Command::Repeat, Command::Reveal] {
        assert_eq!(command_from_tag(command_tag(cmd)), Ok(cmd));
    }
}

#[test]
fn unknown_tags_are_invalid() {
    assert_eq!(command_from_tag(0), Err(WireError::InvalidCommand));
    assert_eq!(command_from_tag(6), Err(WireError::InvalidCommand));
    assert_eq!(command_from_tag(255), Err(WireError::InvalidCommand));
}

#[test]
fn only_transfer_and_reveal_carry_a_payload() {
    assert!(has_payload(Command::Transfer));
    assert!(has_payload(Command::Reveal));
    assert!(!has_payload(Command::Play));
    assert!(!has_payload(Command::Pause));
    assert!(!has_payload(Command::Repeat));
}

#[test]
fn length_is_big_endian() {
    let mut out = Vec::new();
    write_u64_be(&mut out, 0x0102_0304_0506_0708);
    assert_eq!(out, vec![1, 2, 3, 4, 5, 6, 7, 8]);
    assert_eq!(read_u64_be(&out), 0x0102_0304_0506_0708);
    let mut ten = Vec::new();
    write_u64_be(&mut ten, 10);
    assert_eq!(ten, vec![0, 0, 0, 0, 0, 0, 0, 10]);
}

#[test]
fn largest_length_round_trips() {
    let mut out = Vec::new();
    write_u64_be(&mut out, u64::MAX);
    assert_eq!(out, vec![255; 8]);
    assert_eq!(read_u64_be(&out), u64::MAX);
}

#[test]
fn command_is_one_byte() {
    let mut out = vec![9];
    write_command(&mut out, Command::Repeat);
    assert_eq!(out, vec![9, 4]);
}

#[test]
fn blob_round_trips_with_trailing_bytes() {
    let payload: Vec<u8> = (0..=255u8).collect();
    let mut out = Vec::new();
    write_blob(&mut out, &payload);
    assert_eq!(out.len(), 8 + 256);
    assert_eq!(&out[..8], &[0, 0, 0, 0, 0, 0, 1, 0]);
    out.extend_from_slice(&[7, 7, 7]);
    assert_eq!(read_blob(&out), Ok((payload, 264)));
}

#[test]
fn empty_blob_round_trips() {
    let mut out = Vec::new();
    write_blob(&mut out, &[]);
    assert_eq!(out, vec![0; 8]);
    assert_eq!(read_blob(&out), Ok((Vec::new(), 8)));
}

#[test]
fn large_blob_round_trips() {
    let payload: Vec<u8> = (0..100_000u32).map(|i| (i % 251) as u8).collect();
    let mut out = Vec::new();
    write_blob(&mut out, &payload);
    let (back, used) = read_blob(&out).unwrap();
    assert_eq!(used, out.len());
    assert_eq!(back, payload);
}

#[test]
fn short_blob_is_unexpected_eof() {
    assert_eq!(read_blob(&[0, 0, 0]), Err(WireError::UnexpectedEof));
    assert_eq!(read_blob(&[0, 0, 0, 0, 0, 0, 0, 3, 1, 2]), Err(WireError::UnexpectedEof));
    assert_eq!(read_blob(&[255; 12]), Err(WireError::UnexpectedEof));
}

#[test]
fn frames_read_back_as_messages() {
    let mut out = Vec::new();
    write_frame(&mut out, Command::Play, &[]);
    write_frame(&mut out, Command::Transfer, &[1, 2, 3]);
    write_frame(&mut out, Command::Pause, &[9, 9]);
    write_frame(&mut out, Command::Reveal, b"{}");
    assert_eq!(out, vec![1, 2, 0, 0, 0, 0, 0, 0, 0, 3, 1, 2, 3, 3, 5, 0, 0, 0, 0, 0, 0, 0, 2, b'{', b'}']);

    let (m, used) = read_message(&out).unwrap();
    assert_eq!((m, used), (Message::Play, 1));
    let rest = &out[used..];
    let (m, used) = read_message(rest).unwrap();
    assert_eq!((m, used), (Message::Transfer(vec![1, 2, 3]), 12));
    let rest = &rest[used..];
    let (m, used) = read_message(rest).unwrap();
    assert_eq!((m, used), (Message::Pause, 1));
    let rest = &rest[used..];
    assert_eq!(read_message(rest), Ok((Message::Reveal(b"{}".to_vec()), 11)));
}

#[test]
fn repeat_message_has_no_payload() {
    assert_eq!(read_message(&[4, 1]), Ok((Message::Repeat, 1)));
}

#[test]
fn bad_messages_are_refused() {
    assert_eq!(read_message(&[]), Err(WireError::UnexpectedEof));
    assert_eq!(read_message(&[0]), Err(WireError::InvalidCommand));
    assert_eq!(read_message(&[7, 0, 0]), Err(WireError::InvalidCommand));
    assert_eq!(read_message(&[2, 0, 0]), Err(WireError::UnexpectedEof));
    assert_eq!(read_message(&[5, 0, 0, 0, 0, 0, 0, 0, 4, 1]), Err(WireError::UnexpectedEof));
}
