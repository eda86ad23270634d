//! Notification codec: classifies and decodes a raw notification buffer into
//! one structured [`Notification`] variant.
//!
//! The algorithm is tag dispatch plus variable-length-tail decoding:
//!
//! 1. read the 16-bit type tag at the start of the buffer and map it through
//!    the constant table to an [`Event`];
//! 2. dispatch on the event to the matching variant's fixed-header layout and
//!    read the fields at their slot offsets;
//! 3. when the variant declares a trailing payload, copy the bytes between
//!    the fixed header and the declared length out of the buffer; a declared
//!    length below the header size, or a buffer shorter than the declared
//!    length, is a decode error, never an out-of-bounds read;
//! 4. a tag that maps to `Unknown`, or to an event without a modeled variant
//!    (data-io, stream reset, association reset, stream change, the newer
//!    send-failure shape), decodes to [`Notification::Unsupported`] rather
//!    than failing, preserving forward compatibility.

use vstd::prelude::*;

use crate::consts::{
    ADAPTATION_HEADER_SIZE, ADDRESS_FAMILY_V4, ADDRESS_FAMILY_V6, ASSOC_CHANGE_HEADER_SIZE,
    AUTHKEY_HEADER_SIZE, MSG_NOTIFICATION, NOTIFICATION_COMMON_HEADER_SIZE, PDAPI_HEADER_SIZE,
    PEER_ADDR_CHANGE_HEADER_SIZE, REMOTE_ERROR_HEADER_SIZE, SCTP_ASSOC_CHANGE, SCTP_REMOTE_ERROR,
    SCTP_SEND_FAILED, SEND_FAILED_HEADER_SIZE, SENDER_DRY_HEADER_SIZE, SHUTDOWN_HEADER_SIZE,
};
use crate::types::{
    spec_assoc_change_state_from_u16, spec_event_from_u16, AdaptationEvent, AssocChangeState,
    AssociationChange, AssociationChangeView, AuthkeyEvent, DecodeError, Event, Notification,
    NotificationView, PdapiEvent, PeerAddrChange, RemoteError, RemoteErrorView, SendFailed,
    SendFailedView, SenderDryEvent, Shutdown, SndRcvInfo, TransportAddress,
};
use crate::wire::{
    bytes_range, i32_at, read_i32_at, read_u16_at, read_u32_at, u16_at, u32_at,
};

verus! {

/// Whether the out-of-band flags word of a receive call marks its buffer as
/// a notification rather than application data. The kernel signals which
/// case applies through the [`MSG_NOTIFICATION`] bit; the codec never
/// guesses from the payload shape.
pub fn is_notification(recv_flags: u32) -> (r: bool)
    ensures
        r == (recv_flags & MSG_NOTIFICATION != 0),
{
    recv_flags & MSG_NOTIFICATION != 0
}

/// The IPv6 address stored as four big-endian-ordered 32-bit slots starting
/// at byte offset `off`: the first slot holds the most significant bits.
pub open spec fn spec_v6_addr_at(b: Seq<u8>, off: int) -> u128 {
    ((u32_at(b, off) as u128) << 96) | ((u32_at(b, off + 4) as u128) << 64) | ((u32_at(
        b,
        off + 8,
    ) as u128) << 32) | (u32_at(b, off + 12) as u128)
}

/// The transport address stored in a peer-address block at byte offset
/// `off`: a 16-bit address family, a 16-bit port, 32-bit flow information
/// and scope id, then four address slots. An unrecognized family decodes to
/// `None`.
pub open spec fn spec_addr_block_at(b: Seq<u8>, off: int) -> Option<TransportAddress> {
    let family = u16_at(b, off);
    if family == ADDRESS_FAMILY_V4 {
        Some(TransportAddress::V4 { addr: u32_at(b, off + 16), port: u16_at(b, off + 4) })
    } else if family == ADDRESS_FAMILY_V6 {
        Some(
            TransportAddress::V6 {
                addr: spec_v6_addr_at(b, off + 16),
                port: u16_at(b, off + 4),
                flowinfo: u32_at(b, off + 8),
                scope_id: u32_at(b, off + 12),
            },
        )
    } else {
        None
    }
}

/// Decode of an association-change notification from `b`, of which `n` bytes
/// are valid.
pub open spec fn spec_decode_assoc_change(b: Seq<u8>, n: nat) -> Result<
    NotificationView,
    DecodeError,
> {
    if n < NOTIFICATION_COMMON_HEADER_SIZE {
        Err(DecodeError::BufferTooShort)
    } else {
        let len = u32_at(b, 8);
        if len < ASSOC_CHANGE_HEADER_SIZE {
            Err(DecodeError::LengthBelowHeader)
        } else if len > n {
            Err(DecodeError::BufferTooShort)
        } else {
            Ok(
                NotificationView::AssociationChange(
                    AssociationChangeView {
                        ev_type: Event::Association,
                        flags: u16_at(b, 4),
                        length: len,
                        state: spec_assoc_change_state_from_u16(u16_at(b, 12)),
                        error: u16_at(b, 16),
                        ob_streams: u16_at(b, 20),
                        ib_streams: u16_at(b, 24),
                        assoc_id: i32_at(b, 28),
                        info: b.subrange(ASSOC_CHANGE_HEADER_SIZE as int, len as int),
                    },
                ),
            )
        }
    }
}

/// Decode of a peer-address-change notification from `b`, of which `n` bytes
/// are valid.
pub open spec fn spec_decode_peer_addr_change(b: Seq<u8>, n: nat) -> Result<
    NotificationView,
    DecodeError,
> {
    if n < NOTIFICATION_COMMON_HEADER_SIZE {
        Err(DecodeError::BufferTooShort)
    } else {
        let len = u32_at(b, 8);
        if len < PEER_ADDR_CHANGE_HEADER_SIZE {
            Err(DecodeError::LengthBelowHeader)
        } else if len > n {
            Err(DecodeError::BufferTooShort)
        } else {
            match spec_addr_block_at(b, 12) {
                Option::None => Err(DecodeError::UnknownAddressFamily),
                Option::Some(aaddr) => Ok(
                    NotificationView::PeerAddrChange(
                        PeerAddrChange {
                            ev_type: Event::Address,
                            flags: u16_at(b, 4),
                            length: len,
                            aaddr: aaddr,
                            state: u32_at(b, 44),
                            error: u32_at(b, 48),
                            assoc_id: i32_at(b, 52),
                        },
                    ),
                ),
            }
        }
    }
}

/// Decode of a send-failed notification from `b`, of which `n` bytes are
/// valid.
pub open spec fn spec_decode_send_failed(b: Seq<u8>, n: nat) -> Result<
    NotificationView,
    DecodeError,
> {
    if n < NOTIFICATION_COMMON_HEADER_SIZE {
        Err(DecodeError::BufferTooShort)
    } else {
        let len = u32_at(b, 8);
        if len < SEND_FAILED_HEADER_SIZE {
            Err(DecodeError::LengthBelowHeader)
        } else if len > n {
            Err(DecodeError::BufferTooShort)
        } else {
            Ok(
                NotificationView::SendFailed(
                    SendFailedView {
                        ev_type: Event::SendFailure,
                        flags: u16_at(b, 4),
                        length: len,
                        error: u32_at(b, 12),
                        ssf_info: SndRcvInfo {
                            sid: u16_at(b, 16),
                            ssn: u16_at(b, 20),
                            flags: u16_at(b, 24),
                            ppid: u32_at(b, 28),
                            context: u32_at(b, 32),
                            timetolive: u32_at(b, 36),
                            tsn: u32_at(b, 40),
                            cumtsn: u32_at(b, 44),
                            assoc_id: i32_at(b, 48),
                        },
                        assoc_id: i32_at(b, 52),
                        data: b.subrange(SEND_FAILED_HEADER_SIZE as int, len as int),
                    },
                ),
            )
        }
    }
}

/// Decode of a remote-error notification from `b`, of which `n` bytes are
/// valid.
pub open spec fn spec_decode_remote_error(b: Seq<u8>, n: nat) -> Result<
    NotificationView,
    DecodeError,
> {
    if n < NOTIFICATION_COMMON_HEADER_SIZE {
        Err(DecodeError::BufferTooShort)
    } else {
        let len = u32_at(b, 8);
        if len < REMOTE_ERROR_HEADER_SIZE {
            Err(DecodeError::LengthBelowHeader)
        } else if len > n {
            Err(DecodeError::BufferTooShort)
        } else {
            Ok(
                NotificationView::RemoteError(
                    RemoteErrorView {
                        ev_type: Event::PeerError,
                        flags: u16_at(b, 4),
                        length: len,
                        error: u16_at(b, 12),
                        assoc_id: i32_at(b, 16),
                        data: b.subrange(REMOTE_ERROR_HEADER_SIZE as int, len as int),
                    },
                ),
            )
        }
    }
}

/// Decode of a shutdown notification from `b`, of which `n` bytes are valid.
pub open spec fn spec_decode_shutdown(b: Seq<u8>, n: nat) -> Result<
    NotificationView,
    DecodeError,
> {
    if n < NOTIFICATION_COMMON_HEADER_SIZE {
        Err(DecodeError::BufferTooShort)
    } else {
        let len = u32_at(b, 8);
        if len < SHUTDOWN_HEADER_SIZE {
            Err(DecodeError::LengthBelowHeader)
        } else if len > n {
            Err(DecodeError::BufferTooShort)
        } else {
            Ok(
                NotificationView::Shutdown(
                    Shutdown {
                        ev_type: Event::Shutdown,
                        flags: u16_at(b, 4),
                        length: len,
                        assoc_id: i32_at(b, 12),
                    },
                ),
            )
        }
    }
}

/// Decode of a partial-delivery notification from `b`, of which `n` bytes
/// are valid.
pub open spec fn spec_decode_pdapi(b: Seq<u8>, n: nat) -> Result<NotificationView, DecodeError> {
    if n < NOTIFICATION_COMMON_HEADER_SIZE {
        Err(DecodeError::BufferTooShort)
    } else {
        let len = u32_at(b, 8);
        if len < PDAPI_HEADER_SIZE {
            Err(DecodeError::LengthBelowHeader)
        } else if len > n {
            Err(DecodeError::BufferTooShort)
        } else {
            Ok(
                NotificationView::PartialDeliveryEvent(
                    PdapiEvent {
                        ev_type: Event::PartialDelivery,
                        flags: u16_at(b, 4),
                        length: len,
                        indication: u32_at(b, 12),
                        stream: u32_at(b, 16),
                        seq: u32_at(b, 20),
                        assoc_id: i32_at(b, 24),
                    },
                ),
            )
        }
    }
}

/// Decode of an adaptation-indication notification from `b`, of which `n`
/// bytes are valid.
pub open spec fn spec_decode_adaptation(b: Seq<u8>, n: nat) -> Result<
    NotificationView,
    DecodeError,
> {
    if n < NOTIFICATION_COMMON_HEADER_SIZE {
        Err(DecodeError::BufferTooShort)
    } else {
        let len = u32_at(b, 8);
        if len < ADAPTATION_HEADER_SIZE {
            Err(DecodeError::LengthBelowHeader)
        } else if len > n {
            Err(DecodeError::BufferTooShort)
        } else {
            Ok(
                NotificationView::AdaptationIndication(
                    AdaptationEvent {
                        ev_type: Event::AdaptationLayer,
                        flags: u16_at(b, 4),
                        length: len,
                        adaptation_ind: u32_at(b, 12),
                        assoc_id: i32_at(b, 16),
                    },
                ),
            )
        }
    }
}

/// Decode of an authentication notification from `b`, of which `n` bytes are
/// valid.
pub open spec fn spec_decode_authkey(b: Seq<u8>, n: nat) -> Result<
    NotificationView,
    DecodeError,
> {
    if n < NOTIFICATION_COMMON_HEADER_SIZE {
        Err(DecodeError::BufferTooShort)
    } else {
        let len = u32_at(b, 8);
        if len < AUTHKEY_HEADER_SIZE {
            Err(DecodeError::LengthBelowHeader)
        } else if len > n {
            Err(DecodeError::BufferTooShort)
        } else {
            Ok(
                NotificationView::AuthenticationEvent(
                    AuthkeyEvent {
                        ev_type: Event::Authentication,
                        flags: u16_at(b, 4),
                        length: len,
                        keynumber: u16_at(b, 12),
                        indication: u32_at(b, 16),
                        assoc_id: i32_at(b, 20),
                    },
                ),
            )
        }
    }
}

/// Decode of a sender-dry notification from `b`, of which `n` bytes are
/// valid.
pub open spec fn spec_decode_sender_dry(b: Seq<u8>, n: nat) -> Result<
    NotificationView,
    DecodeError,
> {
    if n < NOTIFICATION_COMMON_HEADER_SIZE {
        Err(DecodeError::BufferTooShort)
    } else {
        let len = u32_at(b, 8);
        if len < SENDER_DRY_HEADER_SIZE {
            Err(DecodeError::LengthBelowHeader)
        } else if len > n {
            Err(DecodeError::BufferTooShort)
        } else {
            Ok(
                NotificationView::SenderDryEvent(
                    SenderDryEvent {
                        ev_type: Event::SenderDry,
                        flags: u16_at(b, 4),
                        length: len,
                        assoc_id: i32_at(b, 12),
                    },
                ),
            )
        }
    }
}

/// Decode of a notification buffer `b` of which the first `n` bytes are
/// valid: the exact value [`decode_notification`] returns.
pub open spec fn spec_decode_notification(b: Seq<u8>, n: nat) -> Result<
    NotificationView,
    DecodeError,
> {
    if n > b.len() || n < 2 {
        Err(DecodeError::BufferTooShort)
    } else {
        let tag = u16_at(b, 0);
        match spec_event_from_u16(tag) {
            Event::Association => spec_decode_assoc_change(b, n),
            Event::Address => spec_decode_peer_addr_change(b, n),
            Event::SendFailure => spec_decode_send_failed(b, n),
            Event::PeerError => spec_decode_remote_error(b, n),
            Event::Shutdown => spec_decode_shutdown(b, n),
            Event::PartialDelivery => spec_decode_pdapi(b, n),
            Event::AdaptationLayer => spec_decode_adaptation(b, n),
            Event::Authentication => spec_decode_authkey(b, n),
            Event::SenderDry => spec_decode_sender_dry(b, n),
            _ => Ok(NotificationView::Unsupported(tag)),
        }
    }
}

fn read_addr_block(buf: &[u8]) -> (r: Option<TransportAddress>)
    requires
        44 <= buf@.len(),
    ensures
        r == spec_addr_block_at(buf@, 12),
{
    let family = read_u16_at(buf, 12);
    if family == ADDRESS_FAMILY_V4 {
        Some(TransportAddress::V4 { addr: read_u32_at(buf, 28), port: read_u16_at(buf, 16) })
    } else if family == ADDRESS_FAMILY_V6 {
        let w0 = read_u32_at(buf, 28);
        let w1 = read_u32_at(buf, 32);
        let w2 = read_u32_at(buf, 36);
        let w3 = read_u32_at(buf, 40);
        let addr: u128 = ((w0 as u128) << 96) | ((w1 as u128) << 64) | ((w2 as u128) << 32) | (
        w3 as u128);
        Some(
            TransportAddress::V6 {
                addr,
                port: read_u16_at(buf, 16),
                flowinfo: read_u32_at(buf, 20),
                scope_id: read_u32_at(buf, 24),
            },
        )
    } else {
        None
    }
}

fn decode_assoc_change(buf: &[u8], declared_len: usize) -> (r: Result<Notification, DecodeError>)
    requires
        declared_len <= buf@.len(),
    ensures
        (match r {
            Ok(n) => spec_decode_assoc_change(buf@, declared_len as nat) == Ok::<
                NotificationView,
                DecodeError,
            >(n@),
            Err(e) => spec_decode_assoc_change(buf@, declared_len as nat) == Err::<
                NotificationView,
                DecodeError,
            >(e),
        }),
{
    if declared_len < NOTIFICATION_COMMON_HEADER_SIZE as usize {
        return Err(DecodeError::BufferTooShort);
    }
    let len = read_u32_at(buf, 8);
    if len < ASSOC_CHANGE_HEADER_SIZE {
        return Err(DecodeError::LengthBelowHeader);
    }
    if len as usize > declared_len {
        return Err(DecodeError::BufferTooShort);
    }
    let info = bytes_range(buf, ASSOC_CHANGE_HEADER_SIZE as usize, len as usize);
    Ok(
        Notification::AssociationChange(
            AssociationChange {
                ev_type: Event::Association,
                flags: read_u16_at(buf, 4),
                length: len,
                state: AssocChangeState::from_u16(read_u16_at(buf, 12)),
                error: read_u16_at(buf, 16),
                ob_streams: read_u16_at(buf, 20),
                ib_streams: read_u16_at(buf, 24),
                assoc_id: read_i32_at(buf, 28),
                info,
            },
        ),
    )
}

fn decode_peer_addr_change(buf: &[u8], declared_len: usize) -> (r: Result<
    Notification,
    DecodeError,
>)
    requires
        declared_len <= buf@.len(),
    ensures
        (match r {
            Ok(n) => spec_decode_peer_addr_change(buf@, declared_len as nat) == Ok::<
                NotificationView,
                DecodeError,
            >(n@),
            Err(e) => spec_decode_peer_addr_change(buf@, declared_len as nat) == Err::<
                NotificationView,
                DecodeError,
            >(e),
        }),
{
    if declared_len < NOTIFICATION_COMMON_HEADER_SIZE as usize {
        return Err(DecodeError::BufferTooShort);
    }
    let len = read_u32_at(buf, 8);
    if len < PEER_ADDR_CHANGE_HEADER_SIZE {
        return Err(DecodeError::LengthBelowHeader);
    }
    if len as usize > declared_len {
        return Err(DecodeError::BufferTooShort);
    }
    match read_addr_block(buf) {
        None => Err(DecodeError::UnknownAddressFamily),
        Some(aaddr) => Ok(
            Notification::PeerAddrChange(
                PeerAddrChange {
                    ev_type: Event::Address,
                    flags: read_u16_at(buf, 4),
                    length: len,
                    aaddr,
                    state: read_u32_at(buf, 44),
                    error: read_u32_at(buf, 48),
                    assoc_id: read_i32_at(buf, 52),
                },
            ),
        ),
    }
}

fn decode_send_failed(buf: &[u8], declared_len: usize) -> (r: Result<Notification, DecodeError>)
    requires
        declared_len <= buf@.len(),
    ensures
        (match r {
            Ok(n) => spec_decode_send_failed(buf@, declared_len as nat) == Ok::<
                NotificationView,
                DecodeError,
            >(n@),
            Err(e) => spec_decode_send_failed(buf@, declared_len as nat) == Err::<
                NotificationView,
                DecodeError,
            >(e),
        }),
{
    if declared_len < NOTIFICATION_COMMON_HEADER_SIZE as usize {
        return Err(DecodeError::BufferTooShort);
    }
    let len = read_u32_at(buf, 8);
    if len < SEND_FAILED_HEADER_SIZE {
        return Err(DecodeError::LengthBelowHeader);
    }
    if len as usize > declared_len {
        return Err(DecodeError::BufferTooShort);
    }
    let data = bytes_range(buf, SEND_FAILED_HEADER_SIZE as usize, len as usize);
    Ok(
        Notification::SendFailed(
            SendFailed {
                ev_type: Event::SendFailure,
                flags: read_u16_at(buf, 4),
                length: len,
                error: read_u32_at(buf, 12),
                ssf_info: SndRcvInfo {
                    sid: read_u16_at(buf, 16),
                    ssn: read_u16_at(buf, 20),
                    flags: read_u16_at(buf, 24),
                    ppid: read_u32_at(buf, 28),
                    context: read_u32_at(buf, 32),
                    timetolive: read_u32_at(buf, 36),
                    tsn: read_u32_at(buf, 40),
                    cumtsn: read_u32_at(buf, 44),
                    assoc_id: read_i32_at(buf, 48),
                },
                assoc_id: read_i32_at(buf, 52),
                data,
            },
        ),
    )
}

fn decode_remote_error(buf: &[u8], declared_len: usize) -> (r: Result<Notification, DecodeError>)
    requires
        declared_len <= buf@.len(),
    ensures
        (match r {
            Ok(n) => spec_decode_remote_error(buf@, declared_len as nat) == Ok::<
                NotificationView,
                DecodeError,
            >(n@),
            Err(e) => spec_decode_remote_error(buf@, declared_len as nat) == Err::<
                NotificationView,
                DecodeError,
            >(e),
        }),
{
    if declared_len < NOTIFICATION_COMMON_HEADER_SIZE as usize {
        return Err(DecodeError::BufferTooShort);
    }
    let len = read_u32_at(buf, 8);
    if len < REMOTE_ERROR_HEADER_SIZE {
        return Err(DecodeError::LengthBelowHeader);
    }
    if len as usize > declared_len {
        return Err(DecodeError::BufferTooShort);
    }
    let data = bytes_range(buf, REMOTE_ERROR_HEADER_SIZE as usize, len as usize);
    Ok(
        Notification::RemoteError(
            RemoteError {
                ev_type: Event::PeerError,
                flags: read_u16_at(buf, 4),
                length: len,
                error: read_u16_at(buf, 12),
                assoc_id: read_i32_at(buf, 16),
                data,
            },
        ),
    )
}

fn decode_shutdown(buf: &[u8], declared_len: usize) -> (r: Result<Notification, DecodeError>)
    requires
        declared_len <= buf@.len(),
    ensures
        (match r {
            Ok(n) => spec_decode_shutdown(buf@, declared_len as nat) == Ok::<
                NotificationView,
                DecodeError,
            >(n@),
            Err(e) => spec_decode_shutdown(buf@, declared_len as nat) == Err::<
                NotificationView,
                DecodeError,
            >(e),
        }),
{
    if declared_len < NOTIFICATION_COMMON_HEADER_SIZE as usize {
        return Err(DecodeError::BufferTooShort);
    }
    let len = read_u32_at(buf, 8);
    if len < SHUTDOWN_HEADER_SIZE {
        return Err(DecodeError::LengthBelowHeader);
    }
    if len as usize > declared_len {
        return Err(DecodeError::BufferTooShort);
    }
    Ok(
        Notification::Shutdown(
            Shutdown {
                ev_type: Event::Shutdown,
                flags: read_u16_at(buf, 4),
                length: len,
                assoc_id: read_i32_at(buf, 12),
            },
        ),
    )
}

fn decode_pdapi(buf: &[u8], declared_len: usize) -> (r: Result<Notification, DecodeError>)
    requires
        declared_len <= buf@.len(),
    ensures
        (match r {
            Ok(n) => spec_decode_pdapi(buf@, declared_len as nat) == Ok::<
                NotificationView,
                DecodeError,
            >(n@),
            Err(e) => spec_decode_pdapi(buf@, declared_len as nat) == Err::<
                NotificationView,
                DecodeError,
            >(e),
        }),
{
    if declared_len < NOTIFICATION_COMMON_HEADER_SIZE as usize {
        return Err(DecodeError::BufferTooShort);
    }
    let len = read_u32_at(buf, 8);
    if len < PDAPI_HEADER_SIZE {
        return Err(DecodeError::LengthBelowHeader);
    }
    if len as usize > declared_len {
        return Err(DecodeError::BufferTooShort);
    }
    Ok(
        Notification::PartialDeliveryEvent(
            PdapiEvent {
                ev_type: Event::PartialDelivery,
                flags: read_u16_at(buf, 4),
                length: len,
                indication: read_u32_at(buf, 12),
                stream: read_u32_at(buf, 16),
                seq: read_u32_at(buf, 20),
                assoc_id: read_i32_at(buf, 24),
            },
        ),
    )
}

fn decode_adaptation(buf: &[u8], declared_len: usize) -> (r: Result<Notification, DecodeError>)
    requires
        declared_len <= buf@.len(),
    ensures
        (match r {
            Ok(n) => spec_decode_adaptation(buf@, declared_len as nat) == Ok::<
                NotificationView,
                DecodeError,
            >(n@),
            Err(e) => spec_decode_adaptation(buf@, declared_len as nat) == Err::<
                NotificationView,
                DecodeError,
            >(e),
        }),
{
    if declared_len < NOTIFICATION_COMMON_HEADER_SIZE as usize {
        return Err(DecodeError::BufferTooShort);
    }
    let len = read_u32_at(buf, 8);
    if len < ADAPTATION_HEADER_SIZE {
        return Err(DecodeError::LengthBelowHeader);
    }
    if len as usize > declared_len {
        return Err(DecodeError::BufferTooShort);
    }
    Ok(
        Notification::AdaptationIndication(
            AdaptationEvent {
                ev_type: Event::AdaptationLayer,
                flags: read_u16_at(buf, 4),
                length: len,
                adaptation_ind: read_u32_at(buf, 12),
                assoc_id: read_i32_at(buf, 16),
            },
        ),
    )
}

fn decode_authkey(buf: &[u8], declared_len: usize) -> (r: Result<Notification, DecodeError>)
    requires
        declared_len <= buf@.len(),
    ensures
        (match r {
            Ok(n) => spec_decode_authkey(buf@, declared_len as nat) == Ok::<
                NotificationView,
                DecodeError,
            >(n@),
            Err(e) => spec_decode_authkey(buf@, declared_len as nat) == Err::<
                NotificationView,
                DecodeError,
            >(e),
        }),
{
    if declared_len < NOTIFICATION_COMMON_HEADER_SIZE as usize {
        return Err(DecodeError::BufferTooShort);
    }
    let len = read_u32_at(buf, 8);
    if len < AUTHKEY_HEADER_SIZE {
        return Err(DecodeError::LengthBelowHeader);
    }
    if len as usize > declared_len {
        return Err(DecodeError::BufferTooShort);
    }
    Ok(
        Notification::AuthenticationEvent(
            AuthkeyEvent {
                ev_type: Event::Authentication,
                flags: read_u16_at(buf, 4),
                length: len,
                keynumber: read_u16_at(buf, 12),
                indication: read_u32_at(buf, 16),
                assoc_id: read_i32_at(buf, 20),
            },
        ),
    )
}

fn decode_sender_dry(buf: &[u8], declared_len: usize) -> (r: Result<Notification, DecodeError>)
    requires
        declared_len <= buf@.len(),
    ensures
        (match r {
            Ok(n) => spec_decode_sender_dry(buf@, declared_len as nat) == Ok::<
                NotificationView,
                DecodeError,
            >(n@),
            Err(e) => spec_decode_sender_dry(buf@, declared_len as nat) == Err::<
                NotificationView,
                DecodeError,
            >(e),
        }),
{
    if declared_len < NOTIFICATION_COMMON_HEADER_SIZE as usize {
        return Err(DecodeError::BufferTooShort);
    }
    let len = read_u32_at(buf, 8);
    if len < SENDER_DRY_HEADER_SIZE {
        return Err(DecodeError::LengthBelowHeader);
    }
    if len as usize > declared_len {
        return Err(DecodeError::BufferTooShort);
    }
    Ok(
        Notification::SenderDryEvent(
            SenderDryEvent {
                ev_type: Event::SenderDry,
                flags: read_u16_at(buf, 4),
                length: len,
                assoc_id: read_i32_at(buf, 12),
            },
        ),
    )
}

/// Decodes one notification out of `buf`, of which the first `declared_len`
/// bytes are valid (a receive call may fill less than the whole buffer).
///
/// The result is exactly [`spec_decode_notification`] of the input: the tag
/// at the start of the buffer picks the variant, the fields are read at
/// their fixed offsets, and a variant with a trailing payload owns a copy of
/// the bytes between its fixed header and the declared length. A tag without
/// a modeled variant gives [`Notification::Unsupported`]; only a malformed
/// buffer gives an error.
pub fn decode_notification(buf: &[u8], declared_len: usize) -> (r: Result<
    Notification,
    DecodeError,
>)
    ensures
        (match r {
            Ok(n) => spec_decode_notification(buf@, declared_len as nat) == Ok::<
                NotificationView,
                DecodeError,
            >(n@),
            Err(e) => spec_decode_notification(buf@, declared_len as nat) == Err::<
                NotificationView,
                DecodeError,
            >(e),
        }),
{
    if declared_len > buf.len() {
        return Err(DecodeError::BufferTooShort);
    }
    if declared_len < 2 {
        return Err(DecodeError::BufferTooShort);
    }
    let tag = read_u16_at(buf, 0);
    match Event::from_u16(tag) {
        Event::Association => decode_assoc_change(buf, declared_len),
        Event::Address => decode_peer_addr_change(buf, declared_len),
        Event::SendFailure => decode_send_failed(buf, declared_len),
        Event::PeerError => decode_remote_error(buf, declared_len),
        Event::Shutdown => decode_shutdown(buf, declared_len),
        Event::PartialDelivery => decode_pdapi(buf, declared_len),
        Event::AdaptationLayer => decode_adaptation(buf, declared_len),
        Event::Authentication => decode_authkey(buf, declared_len),
        Event::SenderDry => decode_sender_dry(buf, declared_len),
        _ => Ok(Notification::Unsupported(tag)),
    }
}

/// The trailing payload of a decoded notification, for the variants that
/// declare one; `None` for the variants that do not.
pub open spec fn spec_payload_of(nv: NotificationView) -> Option<Seq<u8>> {
    match nv {
        NotificationView::AssociationChange(ac) => Some(ac.info),
        NotificationView::SendFailed(sf) => Some(sf.data),
        NotificationView::RemoteError(re) => Some(re.data),
        _ => None,
    }
}

/// Law: length invariant of the trailing payload. For every modeled variant
/// with a trailing payload (the tag picks it, `h` is its fixed-header size):
/// a declared length below the header size decodes to an error, never a
/// truncated value; a declared length of `h + k` that fits in the valid
/// bytes decodes to a payload of exactly `k` bytes.
pub proof fn lemma_trailing_payload_length(b: Seq<u8>, n: nat, tag: u16, h: u32)
    requires
        NOTIFICATION_COMMON_HEADER_SIZE <= n <= b.len(),
        u16_at(b, 0) == tag,
        (tag == SCTP_ASSOC_CHANGE && h == ASSOC_CHANGE_HEADER_SIZE) || (tag == SCTP_SEND_FAILED
            && h == SEND_FAILED_HEADER_SIZE) || (tag == SCTP_REMOTE_ERROR && h
            == REMOTE_ERROR_HEADER_SIZE),
    ensures
        u32_at(b, 8) < h ==> spec_decode_notification(b, n) == Err::<NotificationView, DecodeError>(
            DecodeError::LengthBelowHeader,
        ),
        h <= u32_at(b, 8) <= n ==> (spec_decode_notification(b, n) matches Ok(nv)
            && spec_payload_of(nv) matches Some(p) && p.len() == u32_at(b, 8) - h),
{
}

/// Law: discriminator consistency. A buffer whose tag names a known event
/// without a modeled notification variant decodes to `Unsupported`, and so
/// does a buffer with a wholly unrecognized tag; the retained raw tag keeps
/// the two cases distinguishable, since only the former maps to a real event
/// in the constant table.
pub proof fn lemma_unmodeled_tags_decode_to_unsupported(b: Seq<u8>, n: nat)
    requires
        2 <= n <= b.len(),
    ensures
        spec_event_from_u16(u16_at(b, 0)) == Event::Unknown ==> spec_decode_notification(b, n)
            == Ok::<NotificationView, DecodeError>(NotificationView::Unsupported(u16_at(b, 0))),
        (u16_at(b, 0) == 0x8000 || 0x800A <= u16_at(b, 0) <= 0x800D) ==> (spec_decode_notification(
            b,
            n,
        ) == Ok::<NotificationView, DecodeError>(NotificationView::Unsupported(u16_at(b, 0)))
            && spec_event_from_u16(u16_at(b, 0)) != Event::Unknown),
{
}

} // verus!
