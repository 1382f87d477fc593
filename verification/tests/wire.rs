use obscuravpn_client::linux::ipc::{frame_message, header_len, MAX_HEADER_LEN};
use obscuravpn_client::os::packet_buffer::{PacketBuffer, PACKET_CAPACITY};
use obscuravpn_client::wg_control_message_header::WgControlMessageHeader;

fn message(kind: u8, len: usize) -> Vec<u8> {
    let mut m = vec![0u8; len];
    m[0] = kind;
    for (i, b) in m.iter_mut().enumerate().skip(4) {
        *b = i as u8;
    }
    m
}

#[test]
fn wg_handshake_initiation_parses_sender() {
    let m = message(1, 148);
    assert_eq!(
        WgControlMessageHeader::parse(&m),
        Some(WgControlMessageHeader::HandshakeInitiation { sender_index: u32::from_le_bytes([4, 5, 6, 7]) })
    );
}

#[test]
fn wg_handshake_response_parses_both_indices() {
    let m = message(2, 92);
    assert_eq!(
        WgControlMessageHeader::parse(&m),
        Some(WgControlMessageHeader::HandshakeResponse {
            sender_index: u32::from_le_bytes([4, 5, 6, 7]),
            receiver_index: u32::from_le_bytes([8, 9, 10, 11]),
        })
    );
}

#[test]
fn wg_cookie_reply_parses_receiver() {
    let m = message(3, 64);
    assert_eq!(
        WgControlMessageHeader::parse(&m),
        Some(WgControlMessageHeader::CookieReply { receiver_index: u32::from_le_bytes([4, 5, 6, 7]) })
    );
}

#[test]
fn wg_data_is_keepalive_only_without_payload() {
    let keepalive = message(4, 32);
    assert_eq!(
        WgControlMessageHeader::parse(&keepalive),
        Some(WgControlMessageHeader::Keepalive { receiver_index: u32::from_le_bytes([4, 5, 6, 7]) })
    );
    assert_eq!(WgControlMessageHeader::parse(&message(4, 48)), None);
}

#[test]
fn wg_short_or_unknown_messages_are_not_control_messages() {
    assert_eq!(WgControlMessageHeader::parse(&[]), None);
    assert_eq!(WgControlMessageHeader::parse(&[1, 0, 0]), None);
    assert_eq!(WgControlMessageHeader::parse(&message(1, 7)), None);
    assert_eq!(WgControlMessageHeader::parse(&message(2, 11)), None);
    assert_eq!(WgControlMessageHeader::parse(&message(5, 32)), None);
}

#[test]
fn packet_buffer_hands_back_committed_packets_in_order() {
    let mut batch = PacketBuffer::default();
    for packet in [&b"first"[..], b"second packet", b""] {
        let free = batch.buffer().expect("room for a packet");
        free[..packet.len()].copy_from_slice(packet);
        batch.commit(packet.len() as u16);
    }
    let mut iter = batch.take_iter();
    assert_eq!(iter.len(), 3);
    assert_eq!(iter.next(), Some(&b"first"[..]));
    assert_eq!(iter.next(), Some(&b"second packet"[..]));
    assert_eq!(iter.next(), Some(&b""[..]));
    assert_eq!(iter.next(), None);
    let mut again = batch.take_iter();
    assert_eq!(again.next(), None);
}

#[test]
fn packet_buffer_is_full_after_packet_capacity() {
    let mut batch = PacketBuffer::new();
    for _ in 0..PACKET_CAPACITY {
        assert!(batch.buffer().is_some());
        batch.commit(1);
    }
    assert!(batch.buffer().is_none());
    assert_eq!(batch.take_iter().len(), PACKET_CAPACITY);
    assert!(batch.buffer().is_some());
}

#[test]
fn packet_buffer_keeps_room_for_largest_packet() {
    let mut batch = PacketBuffer::new();
    batch.buffer().unwrap();
    batch.commit(u16::MAX);
    batch.buffer().unwrap();
    batch.commit(u16::MAX);
    batch.buffer().unwrap();
    batch.commit(u16::MAX);
    assert!(batch.buffer().is_none());
}

#[test]
fn ipc_frame_prefixes_big_endian_length() {
    let framed = frame_message(b"{\"version\":\"v1\"}").unwrap();
    assert_eq!(&framed[..4], &[0, 0, 0, 16]);
    assert_eq!(&framed[4..], b"{\"version\":\"v1\"}");
    assert_eq!(header_len([framed[0], framed[1], framed[2], framed[3]]), Some(16));
}

#[test]
fn ipc_header_length_is_limited() {
    assert_eq!(header_len(MAX_HEADER_LEN.to_be_bytes()), Some(4096));
    assert_eq!(header_len((MAX_HEADER_LEN + 1).to_be_bytes()), None);
    assert_eq!(header_len([0xff, 0, 0, 0]), None);
}
