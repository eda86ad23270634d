//! Constant and layout table: the single source of truth translating between
//! raw integer codes used by the kernel's SCTP socket layer and the symbolic
//! meanings used elsewhere in the library.
//!
//! The numeric socket-option values come from `linux/sctp.h`; the notification
//! type tags occupy the upper half of the 16-bit space (`0x8000`-`0x800D`).
//!
//! Wire layout convention: every notification and every ancillary structure is
//! a sequence of 32-bit little-endian slots, one slot per declared field, in
//! declared field order. A 16-bit field occupies the low two bytes of its
//! slot (the high two bytes are zero on encode and ignored on decode); a
//! 32-bit field fills its slot. A variant with a variable-length trailing
//! payload has one reserved slot between the fixed fields and the payload,
//! so its payload starts at the header size given below and runs to the
//! declared length.

use vstd::prelude::*;

verus! {

// Socket option numbers used by `sctp_bindx`.
pub const SCTP_SOCKOPT_BINDX_ADD: i32 = 100;
pub const SCTP_SOCKOPT_BINDX_REM: i32 = 101;

// Peel off one association from a one-to-many socket.
pub const SCTP_SOCKOPT_PEELOFF: i32 = 102;

// Query peer / local addresses.
pub const SCTP_GET_PEER_ADDRS: i32 = 108;
pub const SCTP_GET_LOCAL_ADDRS: i32 = 109;

// Connect to a server given several addresses.
pub const SCTP_SOCKOPT_CONNECTX: i32 = 110;
pub const SCTP_SOCKOPT_CONNECTX3: i32 = 111;

// Subscribe to SCTP events.
pub const SCTP_EVENT: i32 = 127;

// Init message used with `setsockopt`.
pub const SCTP_INITMSG: i32 = 2;

// Toggle delivery of receive-info / next-info ancillary data.
pub const SCTP_RECVRCVINFO: i32 = 32;
pub const SCTP_RECVNXTINFO: i32 = 33;
pub const SCTP_DEFAULT_SNDINFO: i32 = 34;

// Query the status of an association.
pub const SCTP_STATUS: i32 = 14;

/// Bit set in the out-of-band flags word of a receive call when the buffer
/// holds a notification rather than application data.
pub const MSG_NOTIFICATION: u32 = 0x8000;

// Notification type tags, as found in the first 16 bits of a notification
// buffer.
pub const SCTP_ASSOC_CHANGE: u16 = 0x8001;
pub const SCTP_PEER_ADDR_CHANGE: u16 = 0x8002;
pub const SCTP_SEND_FAILED: u16 = 0x8003;
pub const SCTP_REMOTE_ERROR: u16 = 0x8004;
pub const SCTP_SHUTDOWN: u16 = 0x8005;
pub const SCTP_PARTIAL_DELIVERY_EVENT: u16 = 0x8006;
pub const SCTP_ADAPTATION_INDICATION: u16 = 0x8007;
pub const SCTP_AUTHENTICATION_EVENT: u16 = 0x8008;
pub const SCTP_SENDER_DRY_EVENT: u16 = 0x8009;

// Fixed-header sizes of the modeled notification variants, in bytes. The
// variable-length trailing payload of a variant that has one starts at this
// offset and ends at the declared length.
pub const ASSOC_CHANGE_HEADER_SIZE: u32 = 36;
pub const PEER_ADDR_CHANGE_HEADER_SIZE: u32 = 56;
pub const SEND_FAILED_HEADER_SIZE: u32 = 60;
pub const REMOTE_ERROR_HEADER_SIZE: u32 = 24;
pub const SHUTDOWN_HEADER_SIZE: u32 = 16;
pub const PDAPI_HEADER_SIZE: u32 = 28;
pub const ADAPTATION_HEADER_SIZE: u32 = 20;
pub const AUTHKEY_HEADER_SIZE: u32 = 24;
pub const SENDER_DRY_HEADER_SIZE: u32 = 16;

/// Size of the common prefix every modeled notification starts with:
/// type tag, flags, and declared length.
pub const NOTIFICATION_COMMON_HEADER_SIZE: u32 = 12;

// Sizes of the fixed-layout ancillary structures, in bytes.
pub const SEND_INFO_SIZE: u32 = 20;
pub const RCV_INFO_SIZE: u32 = 32;
pub const NXT_INFO_SIZE: u32 = 20;

// Address families recognized inside a peer-address block.
pub const ADDRESS_FAMILY_V4: u16 = 2;
pub const ADDRESS_FAMILY_V6: u16 = 10;

} // verus!
