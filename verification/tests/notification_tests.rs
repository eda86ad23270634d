use sctp_rs::notification::{decode_notification, is_notification};
use sctp_rs::types::{
    AssocChangeState, DecodeError, Event, Notification, TransportAddress,
};

fn word_buf(words: &[u32]) -> Vec<u8> {
    let mut v = Vec::new();
    for w in words {
        v.extend_from_slice(&w.to_le_bytes());
    }
    v
}

#[test]
fn association_change_comm_up() {
    // tag, flags, length, state, error, ob_streams, ib_streams, assoc_id, reserved
    let buf = word_buf(&[0x8001, 0, 36, 0, 0, 10, 10, 5, 0]);
    let n = decode_notification(&buf, buf.len()).unwrap();
    match n {
        Notification::AssociationChange(ac) => {
            assert_eq!(ac.ev_type, Event::Association);
            assert_eq!(ac.flags, 0);
            assert_eq!(ac.length, 36);
            assert_eq!(ac.state, AssocChangeState::CommUp);
            assert_eq!(ac.error, 0);
            assert_eq!(ac.ob_streams, 10);
            assert_eq!(ac.ib_streams, 10);
            assert_eq!(ac.assoc_id, 5);
            assert_eq!(ac.info, Vec::<u8>::new());
        }
        other => panic!("expected an association change, got {:?}", other),
    }
}

#[test]
fn association_change_with_trailing_info() {
    let mut buf = word_buf(&[0x8001, 0, 39, 1, 7, 2, 3, -4i32 as u32, 0]);
    buf.extend_from_slice(&[0x61, 0x62, 0x63]);
    let n = decode_notification(&buf, buf.len()).unwrap();
    match n {
        Notification::AssociationChange(ac) => {
            assert_eq!(ac.state, AssocChangeState::CommLost);
            assert_eq!(ac.error, 7);
            assert_eq!(ac.assoc_id, -4);
            assert_eq!(ac.info, vec![0x61, 0x62, 0x63]);
        }
        other => panic!("expected an association change, got {:?}", other),
    }
}

#[test]
fn association_change_malformed_length() {
    // Declared length one byte below the fixed header size: an error, never
    // a partially-populated value.
    let mut buf = word_buf(&[0x8001, 0, 35, 0, 0, 10, 10, 5, 0]);
    buf.push(0);
    assert_eq!(decode_notification(&buf, buf.len()), Err(DecodeError::LengthBelowHeader));
}

#[test]
fn shutdown_event() {
    let buf = word_buf(&[0x8005, 0, 16, 7]);
    let n = decode_notification(&buf, buf.len()).unwrap();
    match n {
        Notification::Shutdown(s) => {
            assert_eq!(s.ev_type, Event::Shutdown);
            assert_eq!(s.flags, 0);
            assert_eq!(s.length, 16);
            assert_eq!(s.assoc_id, 7);
        }
        other => panic!("expected a shutdown, got {:?}", other),
    }
}

#[test]
fn shutdown_ignores_bytes_beyond_length() {
    // The declared length stays 16; the buffer carries four extra bytes.
    let buf = word_buf(&[0x8005, 0, 16, 7, 0xFFFFFFFF]);
    let n = decode_notification(&buf, buf.len()).unwrap();
    match n {
        Notification::Shutdown(s) => {
            assert_eq!(s.length, 16);
            assert_eq!(s.assoc_id, 7);
        }
        other => panic!("expected a shutdown, got {:?}", other),
    }
}

#[test]
fn send_failed_with_payload() {
    // Header size 60 = common header, error, the nine-field send/receive
    // snapshot, assoc_id and the reserved slot; length 64 leaves four bytes
    // of undelivered data.
    let mut buf = word_buf(&[
        0x8003, 1, 64, 99, // tag, flags, length, error
        4, 5, 6, 7, 8, 9, 10, 11, 12, // ssf_info
        13, // assoc_id
        0,  // reserved
    ]);
    buf.extend_from_slice(&[0xAA, 0xBB, 0xCC, 0xDD]);
    let n = decode_notification(&buf, buf.len()).unwrap();
    match n {
        Notification::SendFailed(sf) => {
            assert_eq!(sf.ev_type, Event::SendFailure);
            assert_eq!(sf.flags, 1);
            assert_eq!(sf.length, 64);
            assert_eq!(sf.error, 99);
            assert_eq!(sf.ssf_info.sid, 4);
            assert_eq!(sf.ssf_info.ssn, 5);
            assert_eq!(sf.ssf_info.flags, 6);
            assert_eq!(sf.ssf_info.ppid, 7);
            assert_eq!(sf.ssf_info.context, 8);
            assert_eq!(sf.ssf_info.timetolive, 9);
            assert_eq!(sf.ssf_info.tsn, 10);
            assert_eq!(sf.ssf_info.cumtsn, 11);
            assert_eq!(sf.ssf_info.assoc_id, 12);
            assert_eq!(sf.assoc_id, 13);
            assert_eq!(sf.data, vec![0xAA, 0xBB, 0xCC, 0xDD]);
        }
        other => panic!("expected a send-failed, got {:?}", other),
    }
}

#[test]
fn remote_error_with_message() {
    let mut buf = word_buf(&[0x8004, 0, 27, 0x0101, 3, 0]);
    buf.extend_from_slice(b"bad");
    let n = decode_notification(&buf, buf.len()).unwrap();
    match n {
        Notification::RemoteError(re) => {
            assert_eq!(re.ev_type, Event::PeerError);
            assert_eq!(re.length, 27);
            assert_eq!(re.error, 0x0101);
            assert_eq!(re.assoc_id, 3);
            assert_eq!(re.data, b"bad".to_vec());
        }
        other => panic!("expected a remote error, got {:?}", other),
    }
}

#[test]
fn peer_addr_change_v4() {
    let buf = word_buf(&[
        0x8002, 0, 56, // tag, flags, length
        2,    // family: IPv4
        8080, // port
        0, 0, // flowinfo, scope (ignored for v4)
        0xC0000201, 0, 0, 0, // address slots
        1, 0, 9, // state, error, assoc_id
    ]);
    let n = decode_notification(&buf, buf.len()).unwrap();
    match n {
        Notification::PeerAddrChange(pc) => {
            assert_eq!(pc.ev_type, Event::Address);
            assert_eq!(pc.length, 56);
            assert_eq!(pc.aaddr, TransportAddress::V4 { addr: 0xC0000201, port: 8080 });
            assert_eq!(pc.state, 1);
            assert_eq!(pc.error, 0);
            assert_eq!(pc.assoc_id, 9);
        }
        other => panic!("expected a peer address change, got {:?}", other),
    }
}

#[test]
fn peer_addr_change_v6() {
    let buf = word_buf(&[
        0x8002, 0, 56, // tag, flags, length
        10,   // family: IPv6
        443,  // port
        7, 2, // flowinfo, scope
        0x20010DB8, 0, 0, 1, // address slots, most significant first
        4, 5, 6, // state, error, assoc_id
    ]);
    let n = decode_notification(&buf, buf.len()).unwrap();
    match n {
        Notification::PeerAddrChange(pc) => {
            assert_eq!(
                pc.aaddr,
                TransportAddress::V6 {
                    addr: 0x20010DB8_00000000_00000000_00000001,
                    port: 443,
                    flowinfo: 7,
                    scope_id: 2,
                }
            );
            assert_eq!(pc.state, 4);
            assert_eq!(pc.error, 5);
            assert_eq!(pc.assoc_id, 6);
        }
        other => panic!("expected a peer address change, got {:?}", other),
    }
}

#[test]
fn peer_addr_change_unknown_family() {
    let buf = word_buf(&[0x8002, 0, 56, 99, 0, 0, 0, 0, 0, 0, 0, 0, 0, 0]);
    assert_eq!(decode_notification(&buf, buf.len()), Err(DecodeError::UnknownAddressFamily));
}

#[test]
fn partial_delivery_event() {
    let buf = word_buf(&[0x8006, 0, 28, 1, 2, 3, 4]);
    let n = decode_notification(&buf, buf.len()).unwrap();
    match n {
        Notification::PartialDeliveryEvent(p) => {
            assert_eq!(p.ev_type, Event::PartialDelivery);
            assert_eq!(p.indication, 1);
            assert_eq!(p.stream, 2);
            assert_eq!(p.seq, 3);
            assert_eq!(p.assoc_id, 4);
        }
        other => panic!("expected a partial delivery event, got {:?}", other),
    }
}

#[test]
fn adaptation_indication() {
    let buf = word_buf(&[0x8007, 0, 20, 0xCAFE, 2]);
    let n = decode_notification(&buf, buf.len()).unwrap();
    match n {
        Notification::AdaptationIndication(a) => {
            assert_eq!(a.ev_type, Event::AdaptationLayer);
            assert_eq!(a.adaptation_ind, 0xCAFE);
            assert_eq!(a.assoc_id, 2);
        }
        other => panic!("expected an adaptation indication, got {:?}", other),
    }
}

#[test]
fn authentication_event() {
    let buf = word_buf(&[0x8008, 0, 24, 3, 1, 8]);
    let n = decode_notification(&buf, buf.len()).unwrap();
    match n {
        Notification::AuthenticationEvent(a) => {
            assert_eq!(a.ev_type, Event::Authentication);
            assert_eq!(a.keynumber, 3);
            assert_eq!(a.indication, 1);
            assert_eq!(a.assoc_id, 8);
        }
        other => panic!("expected an authentication event, got {:?}", other),
    }
}

#[test]
fn sender_dry_event() {
    let buf = word_buf(&[0x8009, 0, 16, 12]);
    let n = decode_notification(&buf, buf.len()).unwrap();
    match n {
        Notification::SenderDryEvent(s) => {
            assert_eq!(s.ev_type, Event::SenderDry);
            assert_eq!(s.assoc_id, 12);
        }
        other => panic!("expected a sender dry event, got {:?}", other),
    }
}

#[test]
fn recognized_but_unmodeled_tags_decode_to_unsupported() {
    // Data-io and the stream/association reset and change events are
    // recognized by the event table but have no modeled notification shape.
    for tag in [0x8000u16, 0x800A, 0x800B, 0x800C, 0x800D] {
        let buf = word_buf(&[tag as u32, 0, 16, 1]);
        let n = decode_notification(&buf, buf.len()).unwrap();
        assert_eq!(n, Notification::Unsupported(tag));
        assert_ne!(Event::from_u16(tag), Event::Unknown);
    }
}

#[test]
fn wholly_unrecognized_tags_decode_to_unsupported() {
    for tag in [0x0000u16, 0x1234, 0x7FFF, 0x800E, 0xFFFF] {
        let buf = word_buf(&[tag as u32, 0, 16, 1]);
        let n = decode_notification(&buf, buf.len()).unwrap();
        assert_eq!(n, Notification::Unsupported(tag));
        assert_eq!(Event::from_u16(tag), Event::Unknown);
    }
}

#[test]
fn buffer_shorter_than_declared_length() {
    // The length field claims 20 bytes but only 16 are valid.
    let buf = word_buf(&[0x8005, 0, 20, 7]);
    assert_eq!(decode_notification(&buf, buf.len()), Err(DecodeError::BufferTooShort));
}

#[test]
fn declared_len_beyond_buffer() {
    let buf = word_buf(&[0x8005, 0, 16, 7]);
    assert_eq!(decode_notification(&buf, buf.len() + 1), Err(DecodeError::BufferTooShort));
}

#[test]
fn buffer_too_short_for_any_tag() {
    let buf = vec![0x01u8];
    assert_eq!(decode_notification(&buf, 1), Err(DecodeError::BufferTooShort));
    assert_eq!(decode_notification(&[], 0), Err(DecodeError::BufferTooShort));
}

#[test]
fn notification_discriminator_bit() {
    assert!(is_notification(0x8000));
    assert!(is_notification(0x8001));
    assert!(!is_notification(0));
    assert!(!is_notification(0x7FFF));
}

#[test]
fn modeled_tag_with_tiny_valid_region() {
    // Two valid bytes name the association-change variant, but the common
    // header does not fit.
    let buf = word_buf(&[0x8001, 0, 36, 0, 0, 10, 10, 5, 0]);
    assert_eq!(decode_notification(&buf, 2), Err(DecodeError::BufferTooShort));
}
