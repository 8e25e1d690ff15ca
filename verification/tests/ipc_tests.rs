use rain_status::ipc::env::ipc_path;
use rain_status::ipc::frame::{decode_frame, encode_frame, Header, OP_FRAME, OP_HANDSHAKE};
use rain_status::ipc::model::{handshake_request, set_activity_request, ActivityType, Cmd};

#[test]
fn socket_path_joins_directory() {
    assert_eq!(ipc_path(b"/run/user/1000"), b"/run/user/1000/discord-ipc-0".to_vec());
    assert_eq!(ipc_path(b"/tmp/"), b"/tmp/discord-ipc-0".to_vec());
    assert_eq!(ipc_path(b""), b"discord-ipc-0".to_vec());
    assert_eq!(ipc_path(b"/run/\xff"), b"/run/\xff/discord-ipc-0".to_vec());
}

#[test]
fn frame_layout_is_little_endian() {
    let bytes = encode_frame(OP_FRAME, b"{}").unwrap();
    assert_eq!(bytes, vec![1, 0, 0, 0, 2, 0, 0, 0, b'{', b'}']);
    let big = encode_frame(0x0102_0304, &[9; 300]).unwrap();
    assert_eq!(&big[0..8], &[4, 3, 2, 1, 44, 1, 0, 0]);
}

#[test]
fn frame_roundtrip() {
    let payload = br#"{"v":1,"client_id":"5"}"#;
    let bytes = encode_frame(OP_HANDSHAKE, payload).unwrap();
    let (op, body) = decode_frame(&bytes).unwrap();
    assert_eq!(op, OP_HANDSHAKE);
    assert_eq!(body, payload.to_vec());
}

#[test]
fn short_frames_are_refused() {
    assert!(decode_frame(&[1, 0, 0]).is_none());
    assert!(decode_frame(&[1, 0, 0, 0, 5, 0, 0, 0, 1, 2]).is_none());
    let (op, body) = decode_frame(&[1, 0, 0, 0, 1, 0, 0, 0, 7, 8]).unwrap();
    assert_eq!((op, body), (1, vec![7]));
}

#[test]
fn header_roundtrip() {
    let h = Header { opcode: 3, len: 0xdead_beef };
    let b = h.to_bytes();
    assert_eq!(b, vec![3, 0, 0, 0, 0xef, 0xbe, 0xad, 0xde]);
    assert_eq!(Header::from_bytes(&b), Some(h));
    assert_eq!(Header::from_bytes(&b[..7]), None);
}

#[test]
fn handshake_is_version_one() {
    let h = handshake_request(1538463485157974026);
    assert_eq!(h.v, 1);
    assert_eq!(h.client_id, 1538463485157974026);
}

#[test]
fn set_activity_has_v4_nonce() {
    let a = set_activity_request(77, None);
    assert_eq!(a.cmd, Cmd::SetActivity);
    assert_eq!(a.args.pid, 77);
    assert!(a.args.activity.is_none());
    assert_eq!((a.nonce >> 76) & 0xf, 4);
    assert_eq!((a.nonce >> 62) & 0x3, 2);
    let b = set_activity_request(77, None);
    assert_ne!(a.nonce, b.nonce);
}

#[test]
fn activity_type_codes() {
    assert_eq!(ActivityType::Listening.code(), 2);
    assert_eq!(ActivityType::Watching.code(), 3);
    assert_eq!(ActivityType::default(), ActivityType::Game);
    assert_eq!(ActivityType::from_code(5), Some(ActivityType::Competing));
    assert_eq!(ActivityType::from_code(6), None);
}

#[test]
fn header_bytes_roundtrip() {
    let raw = [9u8, 8, 7, 6, 5, 4, 3, 2];
    let h = Header::from_bytes(&raw).unwrap();
    assert_eq!(h.opcode, 0x0607_0809);
    assert_eq!(h.to_bytes(), raw.to_vec());
}
