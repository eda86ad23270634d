use sctp_rs::ancillary::{
    decode_nxt_info, decode_rcv_info, decode_received_data, decode_send_info, encode_send_info,
    nxt_info_from_cmsgs, rcv_info_from_cmsgs,
};
use sctp_rs::types::{ControlMessage, DecodeError, NxtInfo, RcvInfo, SendInfo};

fn word_buf(words: &[u32]) -> Vec<u8> {
    let mut v = Vec::new();
    for w in words {
        v.extend_from_slice(&w.to_le_bytes());
    }
    v
}

#[test]
fn send_info_round_trip() {
    let si = SendInfo { sid: 7, flags: 0x0102, ppid: 0xDEADBEEF, context: 42, assoc_id: 5 };
    let wire = encode_send_info(&si);
    assert_eq!(wire.len(), 20);
    let back = decode_send_info(&wire).unwrap();
    assert_eq!(back, si);
}

#[test]
fn send_info_round_trip_negative_assoc_id() {
    let si = SendInfo { sid: 0xFFFF, flags: 0xFFFF, ppid: u32::MAX, context: 0, assoc_id: -7 };
    let back = decode_send_info(&encode_send_info(&si)).unwrap();
    assert_eq!(back, si);
}

#[test]
fn encode_send_info_exact_layout() {
    let si = SendInfo { sid: 0x0201, flags: 0x0403, ppid: 0x08070605, context: 0x0C0B0A09, assoc_id: 0x100F0E0D };
    let wire = encode_send_info(&si);
    assert_eq!(
        wire,
        vec![
            0x01, 0x02, 0x00, 0x00, // sid slot: low two bytes, high two zero
            0x03, 0x04, 0x00, 0x00, // flags slot
            0x05, 0x06, 0x07, 0x08, // ppid
            0x09, 0x0A, 0x0B, 0x0C, // context
            0x0D, 0x0E, 0x0F, 0x10, // assoc_id
        ]
    );
}

#[test]
fn decode_send_info_short_buffer() {
    let buf = vec![0u8; 19];
    assert_eq!(decode_send_info(&buf), Err(DecodeError::BufferTooShort));
    assert_eq!(decode_send_info(&[]), Err(DecodeError::BufferTooShort));
}

#[test]
fn decode_rcv_info_exact() {
    let buf = word_buf(&[3, 9, 0x0080, 0x11223344, 1000, 900, 77, 0xFFFFFFFF]);
    let ri = decode_rcv_info(&buf).unwrap();
    assert_eq!(
        ri,
        RcvInfo {
            sid: 3,
            ssn: 9,
            flags: 0x0080,
            ppid: 0x11223344,
            tsn: 1000,
            cumtsn: 900,
            context: 77,
            assoc_id: -1,
        }
    );
}

#[test]
fn decode_rcv_info_short_buffer() {
    let buf = vec![0u8; 31];
    assert_eq!(decode_rcv_info(&buf), Err(DecodeError::BufferTooShort));
}

#[test]
fn decode_nxt_info_exact() {
    let buf = word_buf(&[11, 2, 0x55667788, 1500, 6]);
    let ni = decode_nxt_info(&buf).unwrap();
    assert_eq!(ni, NxtInfo { sid: 11, flags: 2, ppid: 0x55667788, length: 1500, assoc_id: 6 });
}

#[test]
fn decode_nxt_info_short_buffer() {
    let buf = vec![0u8; 19];
    assert_eq!(decode_nxt_info(&buf), Err(DecodeError::BufferTooShort));
}

#[test]
fn received_data_with_both_ancillary_structures() {
    let rcv_body = word_buf(&[1, 2, 3, 4, 5, 6, 7, 8]);
    let nxt_body = word_buf(&[9, 10, 11, 12, 13]);
    let cmsgs = vec![
        ControlMessage { tag: 0, data: vec![0; 8] }, // init: irrelevant, skipped
        ControlMessage { tag: 3, data: rcv_body },
        ControlMessage { tag: 4, data: nxt_body },
    ];
    let rd = decode_received_data(vec![0xAB, 0xCD], &cmsgs);
    assert_eq!(rd.payload, vec![0xAB, 0xCD]);
    assert_eq!(
        rd.rcv_info,
        Some(RcvInfo { sid: 1, ssn: 2, flags: 3, ppid: 4, tsn: 5, cumtsn: 6, context: 7, assoc_id: 8 })
    );
    assert_eq!(
        rd.nxt_info,
        Some(NxtInfo { sid: 9, flags: 10, ppid: 11, length: 12, assoc_id: 13 })
    );
}

#[test]
fn received_data_without_ancillary_structures() {
    let cmsgs = vec![
        ControlMessage { tag: 1, data: vec![0; 32] }, // sndrcv: irrelevant
        ControlMessage { tag: 999, data: vec![1, 2, 3] }, // unrecognized, skipped
    ];
    let rd = decode_received_data(vec![1, 2, 3], &cmsgs);
    assert_eq!(rd.payload, vec![1, 2, 3]);
    assert_eq!(rd.rcv_info, None);
    assert_eq!(rd.nxt_info, None);
}

#[test]
fn received_data_skips_short_bodies() {
    // A receive-info message whose body is too short to hold one is skipped;
    // a later well-formed one is still found.
    let cmsgs = vec![
        ControlMessage { tag: 3, data: vec![0; 31] },
        ControlMessage { tag: 3, data: word_buf(&[5, 0, 0, 0, 0, 0, 0, 2]) },
    ];
    let ri = rcv_info_from_cmsgs(&cmsgs).unwrap();
    assert_eq!(ri.sid, 5);
    assert_eq!(ri.assoc_id, 2);
    assert_eq!(nxt_info_from_cmsgs(&cmsgs), None);
}

#[test]
fn received_data_first_match_wins() {
    let first = word_buf(&[1, 0, 0, 0, 0]);
    let second = word_buf(&[2, 0, 0, 0, 0]);
    let cmsgs = vec![
        ControlMessage { tag: 4, data: first },
        ControlMessage { tag: 4, data: second },
    ];
    let ni = nxt_info_from_cmsgs(&cmsgs).unwrap();
    assert_eq!(ni.sid, 1);
}

#[test]
fn ancillary_body_extra_bytes_ignored() {
    let mut body = word_buf(&[1, 2, 3, 4, 5]);
    body.extend_from_slice(&[0xEE; 9]);
    let ni = decode_nxt_info(&body).unwrap();
    assert_eq!(ni, NxtInfo { sid: 1, flags: 2, ppid: 3, length: 4, assoc_id: 5 });
}
