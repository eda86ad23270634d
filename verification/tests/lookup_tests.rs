use sctp_rs::types::{
    AssocChangeState, AssociationId, CmsgType, ConnState, Event, NxtInfo, RcvInfo, SendInfo,
    SubscribeEventAssocId,
};

#[test]
fn event_from_u16_known_tags() {
    assert_eq!(Event::from_u16(0x8000), Event::DataIo);
    assert_eq!(Event::from_u16(0x8001), Event::Association);
    assert_eq!(Event::from_u16(0x8002), Event::Address);
    assert_eq!(Event::from_u16(0x8003), Event::SendFailure);
    assert_eq!(Event::from_u16(0x8004), Event::PeerError);
    assert_eq!(Event::from_u16(0x8005), Event::Shutdown);
    assert_eq!(Event::from_u16(0x8006), Event::PartialDelivery);
    assert_eq!(Event::from_u16(0x8007), Event::AdaptationLayer);
    assert_eq!(Event::from_u16(0x8008), Event::Authentication);
    assert_eq!(Event::from_u16(0x8009), Event::SenderDry);
    assert_eq!(Event::from_u16(0x800A), Event::StreamReset);
    assert_eq!(Event::from_u16(0x800B), Event::AssociationReset);
    assert_eq!(Event::from_u16(0x800C), Event::StreamChange);
    assert_eq!(Event::from_u16(0x800D), Event::SendFailureEvent);
}

#[test]
fn event_from_u16_total_fallback() {
    assert_eq!(Event::from_u16(0), Event::Unknown);
    assert_eq!(Event::from_u16(1), Event::Unknown);
    assert_eq!(Event::from_u16(0x7FFF), Event::Unknown);
    assert_eq!(Event::from_u16(0x800E), Event::Unknown);
    assert_eq!(Event::from_u16(0x9000), Event::Unknown);
    assert_eq!(Event::from_u16(0xFFFF), Event::Unknown);
}

#[test]
fn event_tag_round_trip() {
    let events = [
        Event::DataIo,
        Event::Association,
        Event::Address,
        Event::SendFailure,
        Event::PeerError,
        Event::Shutdown,
        Event::PartialDelivery,
        Event::AdaptationLayer,
        Event::Authentication,
        Event::SenderDry,
        Event::StreamReset,
        Event::AssociationReset,
        Event::StreamChange,
        Event::SendFailureEvent,
    ];
    for ev in events {
        assert_eq!(Event::from_u16(ev.to_u16()), ev);
    }
    assert_eq!(Event::Unknown.to_u16(), 0);
}

#[test]
fn assoc_change_state_from_u16_known() {
    assert_eq!(AssocChangeState::from_u16(0), AssocChangeState::CommUp);
    assert_eq!(AssocChangeState::from_u16(1), AssocChangeState::CommLost);
    assert_eq!(AssocChangeState::from_u16(2), AssocChangeState::Restart);
    assert_eq!(AssocChangeState::from_u16(3), AssocChangeState::ShutdownComplete);
    assert_eq!(AssocChangeState::from_u16(4), AssocChangeState::CannotStartAssoc);
}

#[test]
fn assoc_change_state_total_fallback() {
    assert_eq!(AssocChangeState::from_u16(5), AssocChangeState::Unknown);
    assert_eq!(AssocChangeState::from_u16(6), AssocChangeState::Unknown);
    assert_eq!(AssocChangeState::from_u16(0xFFFF), AssocChangeState::Unknown);
}

#[test]
fn conn_state_from_i32_known() {
    assert_eq!(ConnState::from_i32(0), ConnState::Empty);
    assert_eq!(ConnState::from_i32(1), ConnState::Closed);
    assert_eq!(ConnState::from_i32(2), ConnState::CookieWait);
    assert_eq!(ConnState::from_i32(3), ConnState::CookieEchoed);
    assert_eq!(ConnState::from_i32(4), ConnState::Established);
    assert_eq!(ConnState::from_i32(5), ConnState::ShutdownPending);
    assert_eq!(ConnState::from_i32(6), ConnState::ShutdownSent);
    assert_eq!(ConnState::from_i32(7), ConnState::ShutdownReceived);
    assert_eq!(ConnState::from_i32(8), ConnState::ShutdownAckSent);
}

#[test]
fn conn_state_total_fallback() {
    assert_eq!(ConnState::from_i32(9), ConnState::Unknown);
    assert_eq!(ConnState::from_i32(-1), ConnState::Unknown);
    assert_eq!(ConnState::from_i32(i32::MIN), ConnState::Unknown);
    assert_eq!(ConnState::from_i32(i32::MAX), ConnState::Unknown);
}

#[test]
fn subscribe_event_assoc_id_sentinels() {
    assert_eq!(AssociationId::from(SubscribeEventAssocId::Future), 0);
    assert_eq!(AssociationId::from(SubscribeEventAssocId::Current), 1);
    assert_eq!(AssociationId::from(SubscribeEventAssocId::All), 2);
    assert_eq!(AssociationId::from(SubscribeEventAssocId::Value(9)), 9);
    assert_eq!(AssociationId::from(SubscribeEventAssocId::Value(-3)), -3);
    // The conversion is lossy by design: an explicit id equal to a sentinel
    // cannot be told apart from it.
    assert_eq!(
        AssociationId::from(SubscribeEventAssocId::Value(2)),
        AssociationId::from(SubscribeEventAssocId::All)
    );
}

#[test]
fn cmsg_type_values() {
    assert_eq!(CmsgType::Init.to_i32(), 0);
    assert_eq!(CmsgType::SndRcv.to_i32(), 1);
    assert_eq!(CmsgType::SndInfo.to_i32(), 2);
    assert_eq!(CmsgType::RcvInfo.to_i32(), 3);
    assert_eq!(CmsgType::NxtInfo.to_i32(), 4);
    assert_eq!(CmsgType::PrInfo.to_i32(), 5);
    assert_eq!(CmsgType::AuthInfo.to_i32(), 6);
    assert_eq!(CmsgType::DstAddrV4.to_i32(), 7);
    assert_eq!(CmsgType::DstAddrV6.to_i32(), 8);
}

#[test]
fn default_values_are_zero() {
    let si = SendInfo::default();
    assert_eq!(si, SendInfo { sid: 0, flags: 0, ppid: 0, context: 0, assoc_id: 0 });
    let ri = RcvInfo::default();
    assert_eq!(
        ri,
        RcvInfo { sid: 0, ssn: 0, flags: 0, ppid: 0, tsn: 0, cumtsn: 0, context: 0, assoc_id: 0 }
    );
    let ni = NxtInfo::default();
    assert_eq!(ni, NxtInfo { sid: 0, flags: 0, ppid: 0, length: 0, assoc_id: 0 });
    assert_eq!(ConnState::default(), ConnState::Empty);
}
