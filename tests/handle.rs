use drm::connector::Id as ConnectorId;
use drm::handle::{AnyHandle, CrtcHandle, ObjectType, RawResourceHandle, ResourceHandle};

#[test]
fn zero_is_no_handle() {
    assert!(RawResourceHandle::new(0).is_none());
    assert_eq!(RawResourceHandle::new(17).unwrap().get(), 17);
}

#[test]
fn downcast_matching_tag() {
    let any = AnyHandle { raw: RawResourceHandle::new(5).unwrap(), kind: ObjectType::Connector };
    let con: Option<ConnectorId> = any.downcast();
    assert_eq!(con.unwrap().as_raw().get(), 5);
}

#[test]
fn downcast_other_tag_fails() {
    let any = AnyHandle { raw: RawResourceHandle::new(5).unwrap(), kind: ObjectType::Crtc };
    let con: Option<ConnectorId> = any.downcast();
    assert!(con.is_none());
    let crtc: Option<CrtcHandle> = any.downcast();
    assert!(crtc.is_some());
}

#[test]
fn typed_handle_keeps_its_kind() {
    let crtc = CrtcHandle::from_raw(RawResourceHandle::new(6).unwrap());
    let any = AnyHandle::from_handle(&crtc);
    assert_eq!(any.kind, ObjectType::Crtc);
    assert_eq!(any.raw.get(), 6);
    assert_eq!(<CrtcHandle as ResourceHandle>::object_type(), ObjectType::Crtc);
}
