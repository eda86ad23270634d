//! Ancillary info codec: the two symmetric conversions at the data-path
//! boundary.
//!
//! Encoding turns a [`SendInfo`] into the fixed-layout control-message body
//! the kernel expects with a send call; it cannot fail, since every field is
//! a fixed-width integer. Decoding walks the control messages attached to
//! one received payload, picks out the receive-info and next-info messages
//! by their type tag, and reinterprets their bytes; unrecognized or
//! irrelevant tags are skipped, never errors.

use vstd::bytes::*;
use vstd::prelude::*;

use crate::consts::{NXT_INFO_SIZE, RCV_INFO_SIZE, SEND_INFO_SIZE};
use crate::types::{
    spec_cmsg_type_to_i32, CmsgType, ControlMessage, DecodeError, NxtInfo, RcvInfo, ReceivedData,
    SendInfo,
};
use crate::wire::{
    i32_at, lemma_i32_slot_round_trip, push_i32_slot, push_u16_slot, push_u32_slot, read_i32_at,
    read_u16_at, read_u32_at, spec_u16_slot, u16_at, u32_at,
};

verus! {

/// The wire form of a [`SendInfo`]: five 32-bit little-endian slots holding
/// `sid`, `flags`, `ppid`, `context` and `assoc_id` in declared order.
pub open spec fn spec_encode_send_info(si: SendInfo) -> Seq<u8> {
    spec_u16_slot(si.sid) + spec_u16_slot(si.flags) + spec_u32_to_le_bytes(si.ppid)
        + spec_u32_to_le_bytes(si.context) + spec_u32_to_le_bytes(si.assoc_id as u32)
}

/// Encodes ancillary send information into the control-message body the
/// kernel's send call accepts. Cannot fail: the result is always exactly
/// [`SEND_INFO_SIZE`] bytes.
pub fn encode_send_info(si: &SendInfo) -> (r: Vec<u8>)
    ensures
        r@ == spec_encode_send_info(*si),
        r@.len() == SEND_INFO_SIZE,
{
    let mut v: Vec<u8> = Vec::new();
    push_u16_slot(&mut v, si.sid);
    push_u16_slot(&mut v, si.flags);
    push_u32_slot(&mut v, si.ppid);
    push_u32_slot(&mut v, si.context);
    push_i32_slot(&mut v, si.assoc_id);
    proof {
        lemma_auto_spec_u16_to_from_le_bytes();
        lemma_auto_spec_u32_to_from_le_bytes();
        assert(v@ =~= spec_encode_send_info(*si));
    }
    v
}

/// The [`SendInfo`] stored at the start of `b`, read slot by slot.
pub open spec fn spec_decode_send_info(b: Seq<u8>) -> SendInfo
    recommends
        b.len() >= SEND_INFO_SIZE,
{
    SendInfo {
        sid: u16_at(b, 0),
        flags: u16_at(b, 4),
        ppid: u32_at(b, 8),
        context: u32_at(b, 12),
        assoc_id: i32_at(b, 16),
    }
}

/// Decodes a send-info control-message body. A buffer shorter than the fixed
/// layout is a decode error; extra bytes beyond it are ignored.
pub fn decode_send_info(b: &[u8]) -> (r: Result<SendInfo, DecodeError>)
    ensures
        b@.len() >= SEND_INFO_SIZE ==> r == Ok::<SendInfo, DecodeError>(spec_decode_send_info(b@)),
        b@.len() < SEND_INFO_SIZE ==> r == Err::<SendInfo, DecodeError>(DecodeError::BufferTooShort),
{
    if b.len() < SEND_INFO_SIZE as usize {
        return Err(DecodeError::BufferTooShort);
    }
    Ok(SendInfo {
        sid: read_u16_at(b, 0),
        flags: read_u16_at(b, 4),
        ppid: read_u32_at(b, 8),
        context: read_u32_at(b, 12),
        assoc_id: read_i32_at(b, 16),
    })
}

/// Law: round trip for the fixed send-info structure. For every
/// `(sid, flags, ppid, context, assoc_id)` tuple, encoding and decoding back
/// through the same layout yields field-for-field equality.
pub proof fn lemma_send_info_round_trip(si: SendInfo)
    ensures
        spec_encode_send_info(si).len() == SEND_INFO_SIZE,
        spec_decode_send_info(spec_encode_send_info(si)) == si,
{
    let b = spec_encode_send_info(si);
    lemma_auto_spec_u16_to_from_le_bytes();
    lemma_auto_spec_u32_to_from_le_bytes();
    assert(b.subrange(0, 2) =~= spec_u16_to_le_bytes(si.sid));
    assert(b.subrange(4, 6) =~= spec_u16_to_le_bytes(si.flags));
    assert(b.subrange(8, 12) =~= spec_u32_to_le_bytes(si.ppid));
    assert(b.subrange(12, 16) =~= spec_u32_to_le_bytes(si.context));
    assert(b.subrange(16, 20) =~= spec_u32_to_le_bytes(si.assoc_id as u32));
    lemma_i32_slot_round_trip(si.assoc_id);
}

/// The [`RcvInfo`] stored at the start of `b`, read slot by slot.
pub open spec fn spec_decode_rcv_info(b: Seq<u8>) -> RcvInfo
    recommends
        b.len() >= RCV_INFO_SIZE,
{
    RcvInfo {
        sid: u16_at(b, 0),
        ssn: u16_at(b, 4),
        flags: u16_at(b, 8),
        ppid: u32_at(b, 12),
        tsn: u32_at(b, 16),
        cumtsn: u32_at(b, 20),
        context: u32_at(b, 24),
        assoc_id: i32_at(b, 28),
    }
}

fn read_rcv_info(b: &[u8]) -> (ri: RcvInfo)
    requires
        b@.len() >= RCV_INFO_SIZE,
    ensures
        ri == spec_decode_rcv_info(b@),
{
    RcvInfo {
        sid: read_u16_at(b, 0),
        ssn: read_u16_at(b, 4),
        flags: read_u16_at(b, 8),
        ppid: read_u32_at(b, 12),
        tsn: read_u32_at(b, 16),
        cumtsn: read_u32_at(b, 20),
        context: read_u32_at(b, 24),
        assoc_id: read_i32_at(b, 28),
    }
}

/// Decodes a receive-info control-message body. A buffer shorter than the
/// fixed layout is a decode error; extra bytes beyond it are ignored.
pub fn decode_rcv_info(b: &[u8]) -> (r: Result<RcvInfo, DecodeError>)
    ensures
        b@.len() >= RCV_INFO_SIZE ==> r == Ok::<RcvInfo, DecodeError>(spec_decode_rcv_info(b@)),
        b@.len() < RCV_INFO_SIZE ==> r == Err::<RcvInfo, DecodeError>(DecodeError::BufferTooShort),
{
    if b.len() < RCV_INFO_SIZE as usize {
        return Err(DecodeError::BufferTooShort);
    }
    Ok(read_rcv_info(b))
}

/// The [`NxtInfo`] stored at the start of `b`, read slot by slot.
pub open spec fn spec_decode_nxt_info(b: Seq<u8>) -> NxtInfo
    recommends
        b.len() >= NXT_INFO_SIZE,
{
    NxtInfo {
        sid: u16_at(b, 0),
        flags: u16_at(b, 4),
        ppid: u32_at(b, 8),
        length: u32_at(b, 12),
        assoc_id: i32_at(b, 16),
    }
}

fn read_nxt_info(b: &[u8]) -> (ni: NxtInfo)
    requires
        b@.len() >= NXT_INFO_SIZE,
    ensures
        ni == spec_decode_nxt_info(b@),
{
    NxtInfo {
        sid: read_u16_at(b, 0),
        flags: read_u16_at(b, 4),
        ppid: read_u32_at(b, 8),
        length: read_u32_at(b, 12),
        assoc_id: read_i32_at(b, 16),
    }
}

/// Decodes a next-info control-message body. A buffer shorter than the fixed
/// layout is a decode error; extra bytes beyond it are ignored.
pub fn decode_nxt_info(b: &[u8]) -> (r: Result<NxtInfo, DecodeError>)
    ensures
        b@.len() >= NXT_INFO_SIZE ==> r == Ok::<NxtInfo, DecodeError>(spec_decode_nxt_info(b@)),
        b@.len() < NXT_INFO_SIZE ==> r == Err::<NxtInfo, DecodeError>(DecodeError::BufferTooShort),
{
    if b.len() < NXT_INFO_SIZE as usize {
        return Err(DecodeError::BufferTooShort);
    }
    Ok(read_nxt_info(b))
}

/// The receive information carried by a control-message list: the first
/// message tagged `RcvInfo` whose body is long enough to hold one, decoded;
/// `None` when there is no such message. Other messages are skipped.
pub open spec fn spec_rcv_info_from_cmsgs(ms: Seq<ControlMessage>) -> Option<RcvInfo>
    decreases ms.len(),
{
    if ms.len() == 0 {
        None
    } else if ms[0].tag == spec_cmsg_type_to_i32(CmsgType::RcvInfo) && ms[0].data@.len()
        >= RCV_INFO_SIZE {
        Some(spec_decode_rcv_info(ms[0].data@))
    } else {
        spec_rcv_info_from_cmsgs(ms.subrange(1, ms.len() as int))
    }
}

/// The next-message information carried by a control-message list: the first
/// message tagged `NxtInfo` whose body is long enough to hold one, decoded;
/// `None` when there is no such message. Other messages are skipped.
pub open spec fn spec_nxt_info_from_cmsgs(ms: Seq<ControlMessage>) -> Option<NxtInfo>
    decreases ms.len(),
{
    if ms.len() == 0 {
        None
    } else if ms[0].tag == spec_cmsg_type_to_i32(CmsgType::NxtInfo) && ms[0].data@.len()
        >= NXT_INFO_SIZE {
        Some(spec_decode_nxt_info(ms[0].data@))
    } else {
        spec_nxt_info_from_cmsgs(ms.subrange(1, ms.len() as int))
    }
}

/// Finds and decodes the receive-info message of a control-message list.
pub fn rcv_info_from_cmsgs(cmsgs: &Vec<ControlMessage>) -> (r: Option<RcvInfo>)
    ensures
        r == spec_rcv_info_from_cmsgs(cmsgs@),
{
    let n = cmsgs.len();
    proof {
        assert(cmsgs@.subrange(0, n as int) =~= cmsgs@);
    }
    let mut i: usize = 0;
    while i < n
        invariant
            i <= n,
            n == cmsgs@.len(),
            spec_rcv_info_from_cmsgs(cmsgs@.subrange(i as int, n as int))
                == spec_rcv_info_from_cmsgs(cmsgs@),
        decreases n - i,
    {
        let m = &cmsgs[i];
        proof {
            assert(cmsgs@.subrange(i as int, n as int)[0] == cmsgs@[i as int]);
        }
        if m.tag == CmsgType::RcvInfo.to_i32() && m.data.len() >= RCV_INFO_SIZE as usize {
            return Some(read_rcv_info(m.data.as_slice()));
        }
        proof {
            assert(cmsgs@.subrange(i as int, n as int).subrange(
                1,
                cmsgs@.subrange(i as int, n as int).len() as int,
            ) =~= cmsgs@.subrange(i as int + 1, n as int));
        }
        i += 1;
    }
    None
}

/// Finds and decodes the next-info message of a control-message list.
pub fn nxt_info_from_cmsgs(cmsgs: &Vec<ControlMessage>) -> (r: Option<NxtInfo>)
    ensures
        r == spec_nxt_info_from_cmsgs(cmsgs@),
{
    let n = cmsgs.len();
    proof {
        assert(cmsgs@.subrange(0, n as int) =~= cmsgs@);
    }
    let mut i: usize = 0;
    while i < n
        invariant
            i <= n,
            n == cmsgs@.len(),
            spec_nxt_info_from_cmsgs(cmsgs@.subrange(i as int, n as int))
                == spec_nxt_info_from_cmsgs(cmsgs@),
        decreases n - i,
    {
        let m = &cmsgs[i];
        proof {
            assert(cmsgs@.subrange(i as int, n as int)[0] == cmsgs@[i as int]);
        }
        if m.tag == CmsgType::NxtInfo.to_i32() && m.data.len() >= NXT_INFO_SIZE as usize {
            return Some(read_nxt_info(m.data.as_slice()));
        }
        proof {
            assert(cmsgs@.subrange(i as int, n as int).subrange(
                1,
                cmsgs@.subrange(i as int, n as int).len() as int,
            ) =~= cmsgs@.subrange(i as int + 1, n as int));
        }
        i += 1;
    }
    None
}

/// Assembles the result of one receive call: the payload as received, plus
/// whichever of the receive-info and next-info ancillary structures the
/// attached control messages carry. Unrecognized control messages are
/// skipped, not errors.
pub fn decode_received_data(payload: Vec<u8>, cmsgs: &Vec<ControlMessage>) -> (r: ReceivedData)
    ensures
        r.payload@ == payload@,
        r.rcv_info == spec_rcv_info_from_cmsgs(cmsgs@),
        r.nxt_info == spec_nxt_info_from_cmsgs(cmsgs@),
{
    let rcv_info = rcv_info_from_cmsgs(cmsgs);
    let nxt_info = nxt_info_from_cmsgs(cmsgs);
    ReceivedData { payload, rcv_info, nxt_info }
}

} // verus!
