//! The data model: owned, inspectable values produced and consumed by the
//! notification and ancillary-data codecs, together with the total lookup
//! functions that map raw numeric codes to their symbolic meanings.
//!
//! Every lookup from an externally-controlled integer is total: an
//! unrecognized value maps to an explicit `Unknown` fallback and never to a
//! failure, so version skew between the kernel and this library degrades
//! gracefully instead of crashing the decoder.

use vstd::prelude::*;

use crate::wire::bytes_eq;

verus! {

/// SCTP association id: an opaque signed 32-bit handle identifying one
/// association within a socket. Meaningful only on one-to-many sockets.
/// The values `0`, `1` and `2` carry reserved meanings (future / current /
/// all) when used as an event-subscription target; see
/// [`SubscribeEventAssocId`].
pub type AssociationId = i32;

/// Flags used by `sctp_bindx`.
#[derive(Debug, Clone, PartialEq, Eq, Structural)]
pub enum BindxFlags {
    /// Add the addresses passed (corresponding to `SCTP_BINDX_ADD_ADDR`).
    Add,
    /// Remove the addresses passed (corresponding to `SCTP_BINDX_REM_ADDR`).
    Remove,
}

/// One-to-many or one-to-one style socket.
#[derive(Debug, Clone, PartialEq, Eq, Structural)]
pub enum SocketToAssociation {
    /// One association per socket (TCP style socket).
    OneToOne,
    /// Many associations per socket (UDP style socket).
    OneToMany,
}

/// A transport address of the remote peer, held as plain values.
///
/// The kernel reports the affected address of a peer-address-change
/// notification as a raw socket-address block; this library decodes that
/// block into one of these two shapes. The `addr` of the `V4` variant is the
/// four address octets as one big-endian integer (`192.0.2.1` is
/// `0xC000_0201`); the `addr` of the `V6` variant is the sixteen address
/// octets as one big-endian integer.
#[derive(Debug, Clone, Copy, PartialEq, Eq, Structural)]
pub enum TransportAddress {
    /// An IPv4 address and port.
    V4 { addr: u32, port: u16 },
    /// An IPv6 address, port, flow information and scope id.
    V6 { addr: u128, port: u16, flowinfo: u32, scope_id: u32 },
}

/// The full ancillary send/receive snapshot the kernel attaches to a
/// send-failed notification: the metadata the undelivered message was sent
/// with.
#[derive(Debug, Clone, Copy, PartialEq, Eq, Structural)]
pub struct SndRcvInfo {
    /// Stream id the message was sent on.
    pub sid: u16,
    /// Stream sequence number.
    pub ssn: u16,
    /// Flags the message was sent with.
    pub flags: u16,
    /// Application protocol id.
    pub ppid: u32,
    /// Opaque context supplied by the sender.
    pub context: u32,
    /// Time to live requested for the message.
    pub timetolive: u32,
    /// Transmission sequence number.
    pub tsn: u32,
    /// Cumulative transmission sequence number.
    pub cumtsn: u32,
    /// Association the message belonged to.
    pub assoc_id: AssociationId,
}

/// Ancillary send information (see section 5.3.4 of RFC 6458).
#[derive(Debug, Clone, Copy, PartialEq, Eq, Structural)]
pub struct SendInfo {
    /// Stream id of the stream to send the data on.
    pub sid: u16,
    /// Flags to be used while sending the data.
    pub flags: u16,
    /// Application protocol id to be used while sending the data.
    pub ppid: u32,
    /// Opaque context to be used while sending the data.
    pub context: u32,
    /// Association id of the SCTP association to be used while sending.
    pub assoc_id: AssociationId,
}

impl Default for SendInfo {
    /// All fields zero: the kernel then applies the socket defaults.
    fn default() -> (r: Self)
        ensures
            r == (SendInfo { sid: 0, flags: 0, ppid: 0, context: 0, assoc_id: 0 }),
    {
        SendInfo { sid: 0, flags: 0, ppid: 0, context: 0, assoc_id: 0 }
    }
}

/// Ancillary receive information (see section 5.3.5 of RFC 6458).
#[derive(Debug, Clone, Copy, PartialEq, Eq, Structural)]
pub struct RcvInfo {
    /// Stream id on which the data was received.
    pub sid: u16,
    /// Stream sequence number received in the data.
    pub ssn: u16,
    /// Flags for the received data.
    pub flags: u16,
    /// Application protocol id used by the sender.
    pub ppid: u32,
    /// Transmission sequence number.
    pub tsn: u32,
    /// Cumulative transmission sequence number.
    pub cumtsn: u32,
    /// Opaque context.
    pub context: u32,
    /// SCTP association id.
    pub assoc_id: AssociationId,
}

impl Default for RcvInfo {
    fn default() -> (r: Self)
        ensures
            r == (RcvInfo {
                sid: 0,
                ssn: 0,
                flags: 0,
                ppid: 0,
                tsn: 0,
                cumtsn: 0,
                context: 0,
                assoc_id: 0,
            }),
    {
        RcvInfo { sid: 0, ssn: 0, flags: 0, ppid: 0, tsn: 0, cumtsn: 0, context: 0, assoc_id: 0 }
    }
}

/// Ancillary next-message information (see section 5.3.5 of RFC 6458):
/// previews the message a following receive call would return.
#[derive(Debug, Clone, Copy, PartialEq, Eq, Structural)]
pub struct NxtInfo {
    /// Stream id for the next received data.
    pub sid: u16,
    /// Flags for the next received data.
    pub flags: u16,
    /// Application protocol id.
    pub ppid: u32,
    /// Length of the message a following receive call would return.
    pub length: u32,
    /// SCTP association id.
    pub assoc_id: AssociationId,
}

impl Default for NxtInfo {
    fn default() -> (r: Self)
        ensures
            r == (NxtInfo { sid: 0, flags: 0, ppid: 0, length: 0, assoc_id: 0 }),
    {
        NxtInfo { sid: 0, flags: 0, ppid: 0, length: 0, assoc_id: 0 }
    }
}

/// One ancillary control message attached to a received payload: a raw
/// control-message type tag and the bytes that came with it.
#[derive(Debug, Clone)]
pub struct ControlMessage {
    /// The control-message type tag (`enum sctp_cmsg_type` value).
    pub tag: i32,
    /// The body of the control message.
    pub data: Vec<u8>,
}

/// Data received by one receive call: the payload plus the decoded ancillary
/// structures that accompanied it, when the socket options enabling them are
/// set.
#[derive(Debug, Clone, Eq)]
pub struct ReceivedData {
    /// Received message payload.
    pub payload: Vec<u8>,
    /// Optional ancillary information about the received payload.
    pub rcv_info: Option<RcvInfo>,
    /// Optional ancillary information about the next receive call.
    pub nxt_info: Option<NxtInfo>,
}

impl PartialEq for ReceivedData {
    fn eq(&self, other: &Self) -> (r: bool) {
        bytes_eq(&self.payload, &other.payload) && self.rcv_info == other.rcv_info
            && self.nxt_info == other.nxt_info
    }
}

impl vstd::std_specs::cmp::PartialEqSpecImpl for ReceivedData {
    open spec fn obeys_eq_spec() -> bool {
        true
    }

    open spec fn eq_spec(&self, other: &Self) -> bool {
        &&& self.payload@ == other.payload@
        &&& self.rcv_info == other.rcv_info
        &&& self.nxt_info == other.nxt_info
    }
}

/// Data to be sent: the payload plus optional ancillary send information.
/// `None` means "use the socket defaults".
#[derive(Debug, Clone, Eq)]
pub struct SendData {
    /// Message payload.
    pub payload: Vec<u8>,
    /// Optional ancillary information used to send the data.
    pub snd_info: Option<SendInfo>,
}

impl PartialEq for SendData {
    fn eq(&self, other: &Self) -> (r: bool) {
        bytes_eq(&self.payload, &other.payload) && self.snd_info == other.snd_info
    }
}

impl vstd::std_specs::cmp::PartialEqSpecImpl for SendData {
    open spec fn obeys_eq_spec() -> bool {
        true
    }

    open spec fn eq_spec(&self, other: &Self) -> bool {
        &&& self.payload@ == other.payload@
        &&& self.snd_info == other.snd_info
    }
}

/// Subscribable notification categories, each with a fixed 16-bit encoding in
/// the upper half of the tag space, plus `Unknown` for any unrecognized wire
/// value. Used both as the decode target of a notification's type tag and as
/// an element of an event-subscription request.
#[derive(Debug, Clone, Copy, PartialEq, Eq, Structural)]
pub enum Event {
    /// Receive ancillary information with every receive call.
    DataIo,
    /// Association change.
    Association,
    /// Peer address change.
    Address,
    /// Send failure.
    SendFailure,
    /// Error received from the peer.
    PeerError,
    /// Peer shutdown.
    Shutdown,
    /// Partial delivery.
    PartialDelivery,
    /// Peer adaptation-layer indication.
    AdaptationLayer,
    /// Authentication event.
    Authentication,
    /// Sender has no outstanding user data.
    SenderDry,
    /// Stream reset.
    StreamReset,
    /// Association reset.
    AssociationReset,
    /// Stream change.
    StreamChange,
    /// Send failure (the newer event shape, distinct from `SendFailure`).
    SendFailureEvent,
    /// Unknown event: used only when an unrecognized value is received.
    Unknown,
}

/// The total mapping from a raw 16-bit tag to an [`Event`]: tags
/// `0x8000`-`0x800D` name the sixteen subscribable categories, every other
/// value is `Unknown`.
pub open spec fn spec_event_from_u16(val: u16) -> Event {
    if val == 0x8000 {
        Event::DataIo
    } else if val == 0x8001 {
        Event::Association
    } else if val == 0x8002 {
        Event::Address
    } else if val == 0x8003 {
        Event::SendFailure
    } else if val == 0x8004 {
        Event::PeerError
    } else if val == 0x8005 {
        Event::Shutdown
    } else if val == 0x8006 {
        Event::PartialDelivery
    } else if val == 0x8007 {
        Event::AdaptationLayer
    } else if val == 0x8008 {
        Event::Authentication
    } else if val == 0x8009 {
        Event::SenderDry
    } else if val == 0x800A {
        Event::StreamReset
    } else if val == 0x800B {
        Event::AssociationReset
    } else if val == 0x800C {
        Event::StreamChange
    } else if val == 0x800D {
        Event::SendFailureEvent
    } else {
        Event::Unknown
    }
}

/// The fixed 16-bit encoding of an [`Event`]; `Unknown`, which has no wire
/// encoding, maps to `0`, a value outside the tag space.
pub open spec fn spec_event_to_u16(ev: Event) -> u16 {
    match ev {
        Event::DataIo => 0x8000,
        Event::Association => 0x8001,
        Event::Address => 0x8002,
        Event::SendFailure => 0x8003,
        Event::PeerError => 0x8004,
        Event::Shutdown => 0x8005,
        Event::PartialDelivery => 0x8006,
        Event::AdaptationLayer => 0x8007,
        Event::Authentication => 0x8008,
        Event::SenderDry => 0x8009,
        Event::StreamReset => 0x800A,
        Event::AssociationReset => 0x800B,
        Event::StreamChange => 0x800C,
        Event::SendFailureEvent => 0x800D,
        Event::Unknown => 0,
    }
}

impl Event {
    /// Looks a raw 16-bit notification tag or subscription value up in the
    /// constant table. Total: an unrecognized value gives `Unknown`, never a
    /// failure.
    pub fn from_u16(val: u16) -> (r: Self)
        ensures
            r == spec_event_from_u16(val),
    {
        match val {
            0x8000 => Event::DataIo,
            0x8001 => Event::Association,
            0x8002 => Event::Address,
            0x8003 => Event::SendFailure,
            0x8004 => Event::PeerError,
            0x8005 => Event::Shutdown,
            0x8006 => Event::PartialDelivery,
            0x8007 => Event::AdaptationLayer,
            0x8008 => Event::Authentication,
            0x8009 => Event::SenderDry,
            0x800A => Event::StreamReset,
            0x800B => Event::AssociationReset,
            0x800C => Event::StreamChange,
            0x800D => Event::SendFailureEvent,
            _ => Event::Unknown,
        }
    }

    /// The fixed numeric encoding of this event, for use in a subscription
    /// request. `Unknown` has no encoding and gives `0`.
    pub fn to_u16(&self) -> (r: u16)
        ensures
            r == spec_event_to_u16(*self),
    {
        match self {
            Event::DataIo => 0x8000,
            Event::Association => 0x8001,
            Event::Address => 0x8002,
            Event::SendFailure => 0x8003,
            Event::PeerError => 0x8004,
            Event::Shutdown => 0x8005,
            Event::PartialDelivery => 0x8006,
            Event::AdaptationLayer => 0x8007,
            Event::Authentication => 0x8008,
            Event::SenderDry => 0x8009,
            Event::StreamReset => 0x800A,
            Event::AssociationReset => 0x800B,
            Event::StreamChange => 0x800C,
            Event::SendFailureEvent => 0x800D,
            Event::Unknown => 0,
        }
    }
}

/// Law: the event lookup is a total fallback. Every 16-bit value outside the
/// known tag range `0x8000`-`0x800D` maps to `Unknown`, and every value
/// inside it maps to a real event.
pub proof fn lemma_event_from_u16_total_fallback(val: u16)
    ensures
        !(0x8000 <= val <= 0x800D) ==> spec_event_from_u16(val) == Event::Unknown,
        0x8000 <= val <= 0x800D ==> spec_event_from_u16(val) != Event::Unknown,
{
}

/// Law: the numeric encoding and the lookup are mutually inverse on the known
/// events, so a subscription written with `to_u16` names the event it was
/// built from.
pub proof fn lemma_event_tag_round_trip(ev: Event)
    ensures
        ev != Event::Unknown ==> spec_event_from_u16(spec_event_to_u16(ev)) == ev,
{
}

/// Association id used for an event subscription: the three reserved sentinel
/// values, or an explicit id.
///
/// The conversion to [`AssociationId`] is lossy by design: a real association
/// id equal to `0`, `1` or `2` cannot be told apart from the sentinels on the
/// wire, so callers must not pass such an id as `Value` unless they intend
/// the sentinel meaning.
#[derive(Debug, Clone, Copy, PartialEq, Eq, Structural)]
pub enum SubscribeEventAssocId {
    /// Subscribe for future association ids.
    Future,
    /// Subscribe for current association ids.
    Current,
    /// Subscribe for all association ids.
    All,
    /// Subscribe for the association id with the given value.
    Value(AssociationId),
}

/// The sentinel encoding of a subscription target: `Future`, `Current` and
/// `All` use the reserved ids `0`, `1` and `2`; an explicit id passes
/// through.
pub open spec fn spec_subscribe_assoc_id(value: SubscribeEventAssocId) -> AssociationId {
    match value {
        SubscribeEventAssocId::Future => 0,
        SubscribeEventAssocId::Current => 1,
        SubscribeEventAssocId::All => 2,
        SubscribeEventAssocId::Value(v) => v,
    }
}

impl From<SubscribeEventAssocId> for AssociationId {
    fn from(value: SubscribeEventAssocId) -> (r: Self) {
        match value {
            SubscribeEventAssocId::Future => 0,
            SubscribeEventAssocId::Current => 1,
            SubscribeEventAssocId::All => 2,
            SubscribeEventAssocId::Value(v) => v,
        }
    }
}

impl vstd::std_specs::convert::FromSpecImpl<SubscribeEventAssocId> for AssociationId {
    open spec fn obeys_from_spec() -> bool {
        true
    }

    open spec fn from_spec(v: SubscribeEventAssocId) -> AssociationId {
        spec_subscribe_assoc_id(v)
    }
}

/// Association change states (`SCTP_COMM_UP` and friends).
#[derive(Debug, Clone, Copy, PartialEq, Eq, Structural)]
pub enum AssocChangeState {
    /// SCTP communication up.
    CommUp,
    /// SCTP communication lost.
    CommLost,
    /// SCTP communication restarted.
    Restart,
    /// Shutdown complete.
    ShutdownComplete,
    /// Cannot start association.
    CannotStartAssoc,
    /// Unknown state: an unrecognized wire value.
    Unknown,
}

/// The total mapping from a raw 16-bit state code to an
/// [`AssocChangeState`]: `0`-`4` name the five states, every other value is
/// `Unknown`.
pub open spec fn spec_assoc_change_state_from_u16(val: u16) -> AssocChangeState {
    if val == 0 {
        AssocChangeState::CommUp
    } else if val == 1 {
        AssocChangeState::CommLost
    } else if val == 2 {
        AssocChangeState::Restart
    } else if val == 3 {
        AssocChangeState::ShutdownComplete
    } else if val == 4 {
        AssocChangeState::CannotStartAssoc
    } else {
        AssocChangeState::Unknown
    }
}

impl AssocChangeState {
    /// Looks a raw association-change state code up. Total: an unrecognized
    /// value gives `Unknown`, never a failure.
    pub fn from_u16(val: u16) -> (r: Self)
        ensures
            r == spec_assoc_change_state_from_u16(val),
    {
        match val {
            0 => AssocChangeState::CommUp,
            1 => AssocChangeState::CommLost,
            2 => AssocChangeState::Restart,
            3 => AssocChangeState::ShutdownComplete,
            4 => AssocChangeState::CannotStartAssoc,
            _ => AssocChangeState::Unknown,
        }
    }
}

/// Law: the association-change state lookup is a total fallback; every value
/// above `4` maps to `Unknown`.
pub proof fn lemma_assoc_change_state_total_fallback(val: u16)
    ensures
        val > 4 ==> spec_assoc_change_state_from_u16(val) == AssocChangeState::Unknown,
        val <= 4 ==> spec_assoc_change_state_from_u16(val) != AssocChangeState::Unknown,
{
}

/// Control-message type tags (`enum sctp_cmsg_type`).
#[derive(Debug, Clone, Copy, PartialEq, Eq, Structural)]
pub enum CmsgType {
    Init,
    SndRcv,
    SndInfo,
    RcvInfo,
    NxtInfo,
    PrInfo,
    AuthInfo,
    DstAddrV4,
    DstAddrV6,
}

/// The fixed numeric value of a control-message type tag: `Init` is `0` and
/// the variants count up in declared order.
pub open spec fn spec_cmsg_type_to_i32(t: CmsgType) -> i32 {
    match t {
        CmsgType::Init => 0,
        CmsgType::SndRcv => 1,
        CmsgType::SndInfo => 2,
        CmsgType::RcvInfo => 3,
        CmsgType::NxtInfo => 4,
        CmsgType::PrInfo => 5,
        CmsgType::AuthInfo => 6,
        CmsgType::DstAddrV4 => 7,
        CmsgType::DstAddrV6 => 8,
    }
}

impl CmsgType {
    /// The numeric value of this tag as it appears on a control message.
    pub fn to_i32(&self) -> (r: i32)
        ensures
            r == spec_cmsg_type_to_i32(*self),
    {
        match self {
            CmsgType::Init => 0,
            CmsgType::SndRcv => 1,
            CmsgType::SndInfo => 2,
            CmsgType::RcvInfo => 3,
            CmsgType::NxtInfo => 4,
            CmsgType::PrInfo => 5,
            CmsgType::AuthInfo => 6,
            CmsgType::DstAddrV4 => 7,
            CmsgType::DstAddrV6 => 8,
        }
    }
}

/// Connection states (`enum sctp_sstat_state`).
#[derive(Debug, Clone, Copy, PartialEq, Eq, Structural)]
pub enum ConnState {
    Empty,
    Closed,
    CookieWait,
    CookieEchoed,
    Established,
    ShutdownPending,
    ShutdownSent,
    ShutdownReceived,
    ShutdownAckSent,
    /// Unknown state: an unrecognized wire value.
    Unknown,
}

impl Default for ConnState {
    fn default() -> (r: Self)
        ensures
            r == ConnState::Empty,
    {
        ConnState::Empty
    }
}

/// The total mapping from a raw 32-bit state code to a [`ConnState`]:
/// `0`-`8` name the nine states, every other value is `Unknown`.
pub open spec fn spec_conn_state_from_i32(val: i32) -> ConnState {
    if val == 0 {
        ConnState::Empty
    } else if val == 1 {
        ConnState::Closed
    } else if val == 2 {
        ConnState::CookieWait
    } else if val == 3 {
        ConnState::CookieEchoed
    } else if val == 4 {
        ConnState::Established
    } else if val == 5 {
        ConnState::ShutdownPending
    } else if val == 6 {
        ConnState::ShutdownSent
    } else if val == 7 {
        ConnState::ShutdownReceived
    } else if val == 8 {
        ConnState::ShutdownAckSent
    } else {
        ConnState::Unknown
    }
}

impl ConnState {
    /// Looks a raw connection state code up. Total: an unrecognized value
    /// gives `Unknown`, never a failure.
    pub fn from_i32(val: i32) -> (r: Self)
        ensures
            r == spec_conn_state_from_i32(val),
    {
        match val {
            0 => ConnState::Empty,
            1 => ConnState::Closed,
            2 => ConnState::CookieWait,
            3 => ConnState::CookieEchoed,
            4 => ConnState::Established,
            5 => ConnState::ShutdownPending,
            6 => ConnState::ShutdownSent,
            7 => ConnState::ShutdownReceived,
            8 => ConnState::ShutdownAckSent,
            _ => ConnState::Unknown,
        }
    }
}

/// Law: the connection state lookup is a total fallback; every value outside
/// `0`-`8` (negative values included) maps to `Unknown`.
pub proof fn lemma_conn_state_total_fallback(val: i32)
    ensures
        !(0 <= val <= 8) ==> spec_conn_state_from_i32(val) == ConnState::Unknown,
        0 <= val <= 8 ==> spec_conn_state_from_i32(val) != ConnState::Unknown,
{
}

/// Association change notification (section 6.1.1 of RFC 6458). Subscribe
/// with [`Event::Association`].
#[derive(Debug, Clone, Eq)]
pub struct AssociationChange {
    /// Type of the notification, always `Association`.
    pub ev_type: Event,
    /// Notification flags. Unused currently.
    pub flags: u16,
    /// Declared length of the notification data.
    pub length: u32,
    /// Association change state. See [`AssocChangeState`].
    pub state: AssocChangeState,
    /// Error code, when the state is an error state with information.
    pub error: u16,
    /// Maximum number of outbound streams.
    pub ob_streams: u16,
    /// Maximum number of inbound streams.
    pub ib_streams: u16,
    /// Association id for the event.
    pub assoc_id: AssociationId,
    /// Additional data for the event.
    pub info: Vec<u8>,
}

/// The mathematical model of an [`AssociationChange`]: the same fields with
/// the owned buffer abstracted to a byte sequence.
pub struct AssociationChangeView {
    pub ev_type: Event,
    pub flags: u16,
    pub length: u32,
    pub state: AssocChangeState,
    pub error: u16,
    pub ob_streams: u16,
    pub ib_streams: u16,
    pub assoc_id: AssociationId,
    pub info: Seq<u8>,
}

impl View for AssociationChange {
    type V = AssociationChangeView;

    open spec fn view(&self) -> AssociationChangeView {
        AssociationChangeView {
            ev_type: self.ev_type,
            flags: self.flags,
            length: self.length,
            state: self.state,
            error: self.error,
            ob_streams: self.ob_streams,
            ib_streams: self.ib_streams,
            assoc_id: self.assoc_id,
            info: self.info@,
        }
    }
}

impl PartialEq for AssociationChange {
    fn eq(&self, other: &Self) -> (r: bool) {
        self.ev_type == other.ev_type && self.flags == other.flags && self.length == other.length
            && self.state == other.state && self.error == other.error && self.ob_streams
            == other.ob_streams && self.ib_streams == other.ib_streams && self.assoc_id
            == other.assoc_id && bytes_eq(&self.info, &other.info)
    }
}

impl vstd::std_specs::cmp::PartialEqSpecImpl for AssociationChange {
    open spec fn obeys_eq_spec() -> bool {
        true
    }

    open spec fn eq_spec(&self, other: &Self) -> bool {
        self@ == other@
    }
}

/// Peer address change notification (section 6.1.2 of RFC 6458). Subscribe
/// with [`Event::Address`].
#[derive(Debug, Clone, Copy, PartialEq, Eq, Structural)]
pub struct PeerAddrChange {
    /// Type of the notification, always `Address`.
    pub ev_type: Event,
    /// Notification flags. Unused currently.
    pub flags: u16,
    /// Declared length of the notification data, header included.
    pub length: u32,
    /// The remote peer's address the change concerns.
    pub aaddr: TransportAddress,
    /// What happened to the address (`SCTP_ADDR_AVAILABLE`,
    /// `SCTP_ADDR_UNREACHABLE`, `SCTP_ADDR_REMOVED`, `SCTP_ADDR_ADDED`,
    /// `SCTP_ADDR_MADE_PRIM`).
    pub state: u32,
    /// Relevant error information, when the state was reached on an error.
    pub error: u32,
    /// Association id for the event.
    pub assoc_id: AssociationId,
}

/// Send failed notification (section 6.1.4 of RFC 6458, the deprecated
/// shape). Subscribe with [`Event::SendFailure`].
#[derive(Debug, Clone, Eq)]
pub struct SendFailed {
    /// Type of the notification, always `SendFailure`.
    pub ev_type: Event,
    /// Notification flags: `SCTP_DATA_UNSENT` or `SCTP_DATA_SENT`.
    pub flags: u16,
    /// Declared length of the notification data, header and payload included.
    pub length: u32,
    /// The reason the send failed.
    pub error: u32,
    /// The ancillary data the undelivered message was sent with.
    pub ssf_info: SndRcvInfo,
    /// Association id for the event.
    pub assoc_id: AssociationId,
    /// The undelivered message, or the part of it the kernel returns.
    pub data: Vec<u8>,
}

/// The mathematical model of a [`SendFailed`]: the same fields with the
/// owned buffer abstracted to a byte sequence.
pub struct SendFailedView {
    pub ev_type: Event,
    pub flags: u16,
    pub length: u32,
    pub error: u32,
    pub ssf_info: SndRcvInfo,
    pub assoc_id: AssociationId,
    pub data: Seq<u8>,
}

impl View for SendFailed {
    type V = SendFailedView;

    open spec fn view(&self) -> SendFailedView {
        SendFailedView {
            ev_type: self.ev_type,
            flags: self.flags,
            length: self.length,
            error: self.error,
            ssf_info: self.ssf_info,
            assoc_id: self.assoc_id,
            data: self.data@,
        }
    }
}

impl PartialEq for SendFailed {
    fn eq(&self, other: &Self) -> (r: bool) {
        self.ev_type == other.ev_type && self.flags == other.flags && self.length == other.length
            && self.error == other.error && self.ssf_info == other.ssf_info && self.assoc_id
            == other.assoc_id && bytes_eq(&self.data, &other.data)
    }
}

impl vstd::std_specs::cmp::PartialEqSpecImpl for SendFailed {
    open spec fn obeys_eq_spec() -> bool {
        true
    }

    open spec fn eq_spec(&self, other: &Self) -> bool {
        self@ == other@
    }
}

/// Remote operation error notification (section 6.1.3 of RFC 6458).
/// Subscribe with [`Event::PeerError`].
#[derive(Debug, Clone, Eq)]
pub struct RemoteError {
    /// Type of the notification, always `PeerError`.
    pub ev_type: Event,
    /// Notification flags. Unused currently.
    pub flags: u16,
    /// Declared length of the notification data, header and payload included.
    pub length: u32,
    /// The error code.
    pub error: u16,
    /// Association id for the event.
    pub assoc_id: AssociationId,
    /// The error message sent by the peer.
    pub data: Vec<u8>,
}

/// The mathematical model of a [`RemoteError`]: the same fields with the
/// owned buffer abstracted to a byte sequence.
pub struct RemoteErrorView {
    pub ev_type: Event,
    pub flags: u16,
    pub length: u32,
    pub error: u16,
    pub assoc_id: AssociationId,
    pub data: Seq<u8>,
}

impl View for RemoteError {
    type V = RemoteErrorView;

    open spec fn view(&self) -> RemoteErrorView {
        RemoteErrorView {
            ev_type: self.ev_type,
            flags: self.flags,
            length: self.length,
            error: self.error,
            assoc_id: self.assoc_id,
            data: self.data@,
        }
    }
}

impl PartialEq for RemoteError {
    fn eq(&self, other: &Self) -> (r: bool) {
        self.ev_type == other.ev_type && self.flags == other.flags && self.length == other.length
            && self.error == other.error && self.assoc_id == other.assoc_id && bytes_eq(
            &self.data,
            &other.data,
        )
    }
}

impl vstd::std_specs::cmp::PartialEqSpecImpl for RemoteError {
    open spec fn obeys_eq_spec() -> bool {
        true
    }

    open spec fn eq_spec(&self, other: &Self) -> bool {
        self@ == other@
    }
}

/// Shutdown notification (section 6.1.5 of RFC 6458). Subscribe with
/// [`Event::Shutdown`].
#[derive(Debug, Clone, Copy, PartialEq, Eq, Structural)]
pub struct Shutdown {
    /// Type of the notification, always `Shutdown`.
    pub ev_type: Event,
    /// Notification flags. Unused currently.
    pub flags: u16,
    /// Declared length of the notification data.
    pub length: u32,
    /// Association id for the event.
    pub assoc_id: AssociationId,
}

/// Adaptation indication notification (section 6.1.6 of RFC 6458).
/// Subscribe with [`Event::AdaptationLayer`].
#[derive(Debug, Clone, Copy, PartialEq, Eq, Structural)]
pub struct AdaptationEvent {
    /// Type of the notification, always `AdaptationLayer`.
    pub ev_type: Event,
    /// Notification flags. Unused currently.
    pub flags: u16,
    /// Declared length of the notification data.
    pub length: u32,
    /// Adaptation indication.
    pub adaptation_ind: u32,
    /// Association id for the event.
    pub assoc_id: AssociationId,
}

/// Partial delivery event notification (section 6.1.7 of RFC 6458).
/// Subscribe with [`Event::PartialDelivery`].
#[derive(Debug, Clone, Copy, PartialEq, Eq, Structural)]
pub struct PdapiEvent {
    /// Type of the notification, always `PartialDelivery`.
    pub ev_type: Event,
    /// Notification flags. Unused currently.
    pub flags: u16,
    /// Declared length of the notification data.
    pub length: u32,
    /// The indication being sent to the application.
    pub indication: u32,
    /// Stream number that was being partially delivered.
    pub stream: u32,
    /// Stream sequence number that was being partially delivered.
    pub seq: u32,
    /// Association id for the event.
    pub assoc_id: AssociationId,
}

/// Authentication event notification (section 6.1.8 of RFC 6458).
/// Subscribe with [`Event::Authentication`].
#[derive(Debug, Clone, Copy, PartialEq, Eq, Structural)]
pub struct AuthkeyEvent {
    /// Type of the notification, always `Authentication`.
    pub ev_type: Event,
    /// Notification flags. Unused currently.
    pub flags: u16,
    /// Declared length of the notification data.
    pub length: u32,
    /// The key number of the key in use.
    pub keynumber: u16,
    /// The indication being sent to the application.
    pub indication: u32,
    /// Association id for the event.
    pub assoc_id: AssociationId,
}

/// Sender dry event notification (section 6.1.9 of RFC 6458). Subscribe
/// with [`Event::SenderDry`].
#[derive(Debug, Clone, Copy, PartialEq, Eq, Structural)]
pub struct SenderDryEvent {
    /// Type of the notification, always `SenderDry`.
    pub ev_type: Event,
    /// Notification flags. Unused currently.
    pub flags: u16,
    /// Declared length of the notification data.
    pub length: u32,
    /// Association id for the event.
    pub assoc_id: AssociationId,
}

/// A notification received on an SCTP socket: the decoding target of the
/// notification codec. Ten concrete variants plus an `Unsupported` catch-all
/// that keeps the raw tag of a recognized-but-unmodeled or wholly
/// unrecognized notification for diagnostics.
#[derive(Debug, Clone, Eq)]
pub enum Notification {
    /// Association change (section 6.1.1 of RFC 6458).
    AssociationChange(AssociationChange),
    /// Peer address change (section 6.1.2 of RFC 6458).
    PeerAddrChange(PeerAddrChange),
    /// Send failed (section 6.1.4 of RFC 6458). Deprecated.
    SendFailed(SendFailed),
    /// Remote operation error (section 6.1.3 of RFC 6458).
    RemoteError(RemoteError),
    /// Shutdown (section 6.1.5 of RFC 6458).
    Shutdown(Shutdown),
    /// Partial delivery event (section 6.1.7 of RFC 6458).
    PartialDeliveryEvent(PdapiEvent),
    /// Adaptation indication (section 6.1.6 of RFC 6458).
    AdaptationIndication(AdaptationEvent),
    /// Authentication event (section 6.1.8 of RFC 6458).
    AuthenticationEvent(AuthkeyEvent),
    /// Sender dry event (section 6.1.9 of RFC 6458).
    SenderDryEvent(SenderDryEvent),
    /// A catch-all for notifications this library does not model, carrying
    /// the raw 16-bit type tag.
    Unsupported(u16),
}

/// The mathematical model of a [`Notification`].
pub enum NotificationView {
    AssociationChange(AssociationChangeView),
    PeerAddrChange(PeerAddrChange),
    SendFailed(SendFailedView),
    RemoteError(RemoteErrorView),
    Shutdown(Shutdown),
    PartialDeliveryEvent(PdapiEvent),
    AdaptationIndication(AdaptationEvent),
    AuthenticationEvent(AuthkeyEvent),
    SenderDryEvent(SenderDryEvent),
    Unsupported(u16),
}

impl View for Notification {
    type V = NotificationView;

    open spec fn view(&self) -> NotificationView {
        match self {
            Notification::AssociationChange(x) => NotificationView::AssociationChange(x@),
            Notification::PeerAddrChange(x) => NotificationView::PeerAddrChange(*x),
            Notification::SendFailed(x) => NotificationView::SendFailed(x@),
            Notification::RemoteError(x) => NotificationView::RemoteError(x@),
            Notification::Shutdown(x) => NotificationView::Shutdown(*x),
            Notification::PartialDeliveryEvent(x) => NotificationView::PartialDeliveryEvent(*x),
            Notification::AdaptationIndication(x) => NotificationView::AdaptationIndication(*x),
            Notification::AuthenticationEvent(x) => NotificationView::AuthenticationEvent(*x),
            Notification::SenderDryEvent(x) => NotificationView::SenderDryEvent(*x),
            Notification::Unsupported(tag) => NotificationView::Unsupported(*tag),
        }
    }
}

impl PartialEq for Notification {
    fn eq(&self, other: &Self) -> (r: bool) {
        match (self, other) {
            (Notification::AssociationChange(a), Notification::AssociationChange(b)) => a == b,
            (Notification::PeerAddrChange(a), Notification::PeerAddrChange(b)) => a == b,
            (Notification::SendFailed(a), Notification::SendFailed(b)) => a == b,
            (Notification::RemoteError(a), Notification::RemoteError(b)) => a == b,
            (Notification::Shutdown(a), Notification::Shutdown(b)) => a == b,
            (Notification::PartialDeliveryEvent(a), Notification::PartialDeliveryEvent(b)) => a
                == b,
            (Notification::AdaptationIndication(a), Notification::AdaptationIndication(b)) => a
                == b,
            (Notification::AuthenticationEvent(a), Notification::AuthenticationEvent(b)) => a == b,
            (Notification::SenderDryEvent(a), Notification::SenderDryEvent(b)) => a == b,
            (Notification::Unsupported(a), Notification::Unsupported(b)) => a == b,
            _ => false,
        }
    }
}

impl vstd::std_specs::cmp::PartialEqSpecImpl for Notification {
    open spec fn obeys_eq_spec() -> bool {
        true
    }

    open spec fn eq_spec(&self, other: &Self) -> bool {
        self@ == other@
    }
}

/// The result of one receive operation: exactly one of a notification or
/// received data. Which case applies is signalled by the kernel through an
/// out-of-band flag on the receive call (the [`crate::consts::MSG_NOTIFICATION`]
/// bit), never guessed from the payload shape.
#[derive(Debug, Clone, Eq)]
pub enum NotificationOrData {
    /// An SCTP notification received by a receive call.
    Notification(Notification),
    /// SCTP data received by a receive call.
    Data(ReceivedData),
}

impl PartialEq for NotificationOrData {
    fn eq(&self, other: &Self) -> (r: bool) {
        match (self, other) {
            (NotificationOrData::Notification(a), NotificationOrData::Notification(b)) => a == b,
            (NotificationOrData::Data(a), NotificationOrData::Data(b)) => a == b,
            _ => false,
        }
    }
}

impl vstd::std_specs::cmp::PartialEqSpecImpl for NotificationOrData {
    open spec fn obeys_eq_spec() -> bool {
        true
    }

    open spec fn eq_spec(&self, other: &Self) -> bool {
        match (self, other) {
            (NotificationOrData::Notification(a), NotificationOrData::Notification(b)) => a@ == b@,
            (NotificationOrData::Data(a), NotificationOrData::Data(b)) => {
                &&& a.payload@ == b.payload@
                &&& a.rcv_info == b.rcv_info
                &&& a.nxt_info == b.nxt_info
            },
            _ => false,
        }
    }
}

/// Why a decode failed. Only a malformed buffer fails: unrecognized tags and
/// codes degrade to `Unknown` / `Unsupported` values instead.
#[derive(Debug, Clone, Copy, PartialEq, Eq, Structural)]
pub enum DecodeError {
    /// The valid bytes end before the structure does: the buffer is shorter
    /// than the declared length, or too short to hold even the fixed header
    /// being read.
    BufferTooShort,
    /// The declared length of a notification is smaller than the fixed-header
    /// size of the variant its tag names.
    LengthBelowHeader,
    /// The address family of a peer-address block is neither the IPv4 nor the
    /// IPv6 family.
    UnknownAddressFamily,
}

/// Point-in-time snapshot of one peer address of an association: congestion
/// window, smoothed round-trip time, retransmission timeout and path MTU.
/// Read-only view produced by a status query, never mutated by this layer.
#[derive(Debug, Clone, Copy, PartialEq, Eq, Structural)]
pub struct PeerAddress {
    pub assoc_id: AssociationId,
    pub address: TransportAddress,
    pub state: i32,
    pub cwnd: u32,
    pub srtt: u32,
    pub rto: u32,
    pub mtu: u32,
}

/// Point-in-time status of one SCTP association: receive window, unacked and
/// pending counts, stream counts and the primary peer address. Read-only
/// view produced by a status query.
#[derive(Debug, Clone, Copy, PartialEq, Eq, Structural)]
pub struct ConnStatus {
    pub assoc_id: AssociationId,
    pub state: ConnState,
    pub rwnd: u32,
    pub unacked_data: u16,
    pub pending_data: u16,
    pub instreams: u16,
    pub outstreams: u16,
    pub fragmentation_pt: u32,
    pub peer_primary: PeerAddress,
}

} // verus!
