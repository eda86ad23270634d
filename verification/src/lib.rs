//! A type-safe decoding/encoding layer over the kernel's socket-level
//! representation of the SCTP transport protocol (RFC 6458).
//!
//! The library interprets the two kinds of binary payload a host process
//! receives from the operating system on an SCTP socket: out-of-band
//! notifications describing association, address and stream lifecycle
//! events, and the ancillary control information that accompanies ordinary
//! data. It also produces the exact byte layout the kernel expects for the
//! ancillary send information attached to an outgoing message.
//!
//! The codec is purely computational: every decoded structure owns its
//! bytes, nothing is cached, and no I/O happens here. Socket creation,
//! polling and the raw system calls are external collaborators that hand
//! this library plain buffers and take plain buffers back.

pub mod ancillary;
pub mod consts;
pub mod notification;
pub mod types;
pub mod wire;
