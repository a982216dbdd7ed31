use std::io::{Cursor, Write};

use byteorder::{BigEndian, ReadBytesExt};
use danmuji::codec::{decode_batch, HEADER_LENGTH, SEQ};
use danmuji::{BiliWebsocketHeader, BiliWebsocketMessage, BiliWebsocketMessageBody, FrameError, JsonValue, OpType};

fn test_json_bytes() -> Vec<u8> {
    let mut m = serde_json::Map::new();
    m.insert("field1".to_string(), serde_json::Value::from(0u32));
    m.insert("field2".to_string(), serde_json::Value::from("Hello World"));
    serde_json::to_vec(&serde_json::Value::Object(m)).unwrap()
}

fn frame(op: OpType, version: u16, payload: &[u8]) -> Vec<u8> {
    BiliWebsocketMessage::new(payload.to_vec(), op, version).to_vec()
}

fn zlib(bytes: &[u8]) -> Vec<u8> {
    let mut e = flate2::write::ZlibEncoder::new(Vec::new(), flate2::Compression::default());
    e.write_all(bytes).unwrap();
    e.finish().unwrap()
}

#[test]
fn test_message_format() {
    let test_bytes = test_json_bytes();
    let data_len = test_bytes.len();

    let msg = BiliWebsocketMessage::new(test_bytes.clone(), OpType::Entry, 1);

    let header = msg.header.to_vec();
    let mut cursor = Cursor::new(&header);

    assert_eq!(
        data_len as u32 + HEADER_LENGTH as u32,
        cursor.read_u32::<BigEndian>().unwrap()
    );
    assert_eq!(HEADER_LENGTH, cursor.read_u16::<BigEndian>().unwrap());
    assert_eq!(1, cursor.read_u16::<BigEndian>().unwrap());
    assert_eq!(
        OpType::Entry,
        cursor.read_u32::<BigEndian>().unwrap().into()
    );
    assert_eq!(SEQ, cursor.read_u32::<BigEndian>().unwrap());

    let data_bytes = msg.to_vec();
    assert_eq!(&header[..], &data_bytes[..HEADER_LENGTH as usize],);
    assert_eq!(&test_bytes[..], &data_bytes[HEADER_LENGTH as usize..],)
}

#[test]
fn test_from_binary() {
    let msg = BiliWebsocketMessage::new(test_json_bytes(), OpType::Entry, 2);

    let buf = msg.to_vec();
    let recovered_msg = BiliWebsocketMessage::from_binary(buf).unwrap();

    assert_eq!(msg, recovered_msg);
}

#[test]
fn header_round_trip_for_each_op() {
    let ops = [
        OpType::HeartBeat,
        OpType::HeartBeatReply,
        OpType::Notification,
        OpType::Entry,
        OpType::EntryReply,
        OpType::Unknown(0),
        OpType::Unknown(99),
    ];
    for (i, op) in ops.iter().enumerate() {
        let payload = vec![7u8; i * 3];
        let msg = BiliWebsocketMessage::new(payload.clone(), *op, 0);
        let bytes = msg.to_vec();
        let header = BiliWebsocketHeader::from_vec(&bytes[..16]).unwrap();
        assert_eq!(header, BiliWebsocketHeader::new(16 + payload.len() as u32, 0, *op));
        assert_eq!(header.packet_length, 16 + payload.len() as u32);
        assert_eq!(header.header_length, 16);
        assert_eq!(header.seq, 1);
    }
}

#[test]
fn header_bytes_are_big_endian() {
    let h = BiliWebsocketHeader::new(0x0102_0304, 2, OpType::Notification);
    assert_eq!(
        h.to_vec(),
        vec![1, 2, 3, 4, 0, 16, 0, 2, 0, 0, 0, 5, 0, 0, 0, 1]
    );
}

#[test]
fn op_codes() {
    assert_eq!(u32::from(OpType::HeartBeat), 2);
    assert_eq!(u32::from(OpType::HeartBeatReply), 3);
    assert_eq!(u32::from(OpType::Notification), 5);
    assert_eq!(u32::from(OpType::Entry), 7);
    assert_eq!(u32::from(OpType::EntryReply), 8);
    assert_eq!(OpType::from(9u32), OpType::Unknown(9));
    assert_eq!(OpType::from(8u32), OpType::EntryReply);
}

#[test]
fn truncated_header_is_an_error() {
    assert_eq!(BiliWebsocketHeader::from_vec(&[0u8; 15]), Err(FrameError::TruncatedHeader));
    assert_eq!(
        BiliWebsocketMessage::from_binary(vec![0u8; 3]),
        Err(FrameError::TruncatedHeader)
    );
}

#[test]
fn packet_length_must_match() {
    let mut bytes = frame(OpType::Notification, 0, b"{}");
    bytes.push(b' ');
    assert_eq!(
        BiliWebsocketMessage::from_binary(bytes),
        Err(FrameError::PacketLengthMismatch)
    );
}

#[test]
fn heartbeat_frame() {
    let hb = BiliWebsocketMessage::heartbeat();
    assert_eq!(
        hb.to_vec(),
        vec![0, 0, 0, 16, 0, 16, 0, 2, 0, 0, 0, 2, 0, 0, 0, 1]
    );
}

#[test]
fn handshake_frame_carries_room_and_user() {
    let m = BiliWebsocketMessage::entry(5_440, Some(42)).unwrap();
    assert_eq!(m.header.op, OpType::Entry);
    assert_eq!(m.header.protocol_version, 2);
    assert_eq!(m.header.packet_length as usize, 16 + m.data.len());
    let doc: serde_json::Value = serde_json::from_slice(&m.data).unwrap();
    assert_eq!(doc["clientver"], "1.14.0");
    assert_eq!(doc["platform"], "web");
    assert_eq!(doc["protover"], 1);
    assert_eq!(doc["uid"], 42);
    assert_eq!(doc["roomid"], 5_440);
    assert_eq!(doc["type"], 2);
    let anonymous = BiliWebsocketMessage::entry(-3, None).unwrap();
    let doc: serde_json::Value = serde_json::from_slice(&anonymous.data).unwrap();
    assert_eq!(doc["uid"], 0);
    assert_eq!(doc["roomid"], -3);
}

fn popularity_of(payload: &[u8]) -> i32 {
    let msg = BiliWebsocketMessage::from_binary(frame(OpType::HeartBeatReply, 0, payload)).unwrap();
    let frames = msg.parse();
    assert_eq!(frames.len(), 1);
    match frames.into_iter().next().unwrap().unwrap().into_body() {
        BiliWebsocketMessageBody::RoomPopularity(n) => n,
        other => panic!("unexpected body {:?}", other),
    }
}

#[test]
fn heartbeat_reply_popularity() {
    assert_eq!(popularity_of(&[0, 0, 1, 2]), 258);
    assert_eq!(popularity_of(&[0xff, 0xff, 0xff, 0xfe]), -2);
    assert_eq!(popularity_of(&[]), 0);
    assert_eq!(popularity_of(&[1, 2]), 0);
}

#[test]
fn auth_reply_and_other_ops() {
    let msg = BiliWebsocketMessage::from_binary(frame(OpType::EntryReply, 0, b"")).unwrap();
    let frames = msg.parse();
    assert_eq!(frames.len(), 1);
    assert!(matches!(
        frames[0].as_ref().unwrap().body,
        BiliWebsocketMessageBody::EntryReply
    ));
    let msg = BiliWebsocketMessage::from_binary(frame(OpType::Unknown(77), 0, b"xyz")).unwrap();
    assert!(msg.parse().is_empty());
}

#[test]
fn literal_notification_frame() {
    let bytes = vec![
        0x00, 0x00, 0x00, 0x14, 0x00, 0x10, 0x00, 0x00, 0x00, 0x00, 0x00, 0x05, 0x00, 0x00, 0x00,
        0x01, b'{', b'}', b' ', b' ',
    ];
    let msg = BiliWebsocketMessage::from_binary(bytes.clone()).unwrap();
    assert_eq!(msg.header.packet_length, 20);
    assert_eq!(msg.header.header_length, 16);
    assert_eq!(msg.header.protocol_version, 0);
    assert_eq!(msg.header.op, OpType::Notification);
    assert_eq!(msg.header.seq, 1);
    let frames = msg.parse();
    assert_eq!(frames.len(), 1);
    match &frames[0].as_ref().unwrap().body {
        BiliWebsocketMessageBody::Notification(JsonValue::Object(members)) => {
            assert!(members.is_empty())
        }
        other => panic!("unexpected body {:?}", other),
    }
    let outcome = danmuji::process_frame(bytes);
    assert!(outcome.events.is_empty());
    assert!(outcome.errors.is_empty());
}

#[test]
fn bad_json_is_reported() {
    let msg = BiliWebsocketMessage::from_binary(frame(OpType::Notification, 0, b"{oops")).unwrap();
    let frames = msg.parse();
    assert_eq!(frames.len(), 1);
    assert_eq!(frames[0].as_ref().err(), Some(&FrameError::JsonParseFailure));
}

fn cmd_payload(cmd: &str, n: u64) -> Vec<u8> {
    format!("{{\"cmd\":\"{}\",\"n\":{}}}", cmd, n).into_bytes()
}

#[test]
fn compressed_batch_splits_in_order() {
    let mut inner = Vec::new();
    for i in 0..3u64 {
        inner.extend(frame(OpType::Notification, 0, &cmd_payload("X", i)));
    }
    let outer = frame(OpType::Notification, 2, &zlib(&inner));
    let frames = BiliWebsocketMessage::from_binary(outer).unwrap().parse();
    assert_eq!(frames.len(), 3);
    for (i, f) in frames.iter().enumerate() {
        let f = f.as_ref().unwrap();
        match &f.body {
            BiliWebsocketMessageBody::Notification(JsonValue::Object(m)) => {
                assert_eq!(m[1].0, "n");
                assert_eq!(m[1].1, JsonValue::Number(danmuji::JsonNumber::PosInt(i as u64)));
            }
            other => panic!("unexpected body {:?}", other),
        }
        assert_eq!(f.header.packet_length as usize, 16 + cmd_payload("X", i as u64).len());
    }
}

#[test]
fn corrupt_batch_keeps_earlier_frames() {
    let mut inner = frame(OpType::Notification, 0, b"{}");
    let mut bad = frame(OpType::Notification, 0, b"{}");
    bad[3] = 200;
    inner.extend(bad);
    let frames = decode_batch(&inner);
    assert_eq!(frames.len(), 2);
    assert!(frames[0].is_ok());
    assert_eq!(frames[1].as_ref().err(), Some(&FrameError::CorruptBatch));
    let short = decode_batch(&[0u8; 5]);
    assert_eq!(short.len(), 1);
    assert_eq!(short[0].as_ref().err(), Some(&FrameError::CorruptBatch));
    assert!(decode_batch(&[]).is_empty());
}

#[test]
fn batch_that_does_not_inflate() {
    let outer = frame(OpType::Notification, 2, b"not zlib at all");
    let frames = BiliWebsocketMessage::from_binary(outer).unwrap().parse();
    assert_eq!(frames.len(), 1);
    assert_eq!(frames[0].as_ref().err(), Some(&FrameError::DecompressionFailure));
}
