use drm::connector::{ConnectorReply, Id, Info, State, Type};
use drm::error::SystemError;
use drm::handle::{RawResourceHandle, ResourceHandle};

#[test]
fn connector_type_codes() {
    assert_eq!(Type::from(0), Type::Unknown);
    assert_eq!(Type::from(1), Type::VGA);
    assert_eq!(Type::from(9), Type::NinePinDIN);
    assert_eq!(Type::from(11), Type::HDMIA);
    assert_eq!(Type::from(14), Type::EmbeddedDisplayPort);
    assert_eq!(Type::from(17), Type::DPI);
    assert_eq!(Type::from(18), Type::Unknown);
    assert_eq!(Type::from(u32::MAX), Type::Unknown);
}

#[test]
fn connection_state_codes() {
    assert_eq!(State::from(1), State::Connected);
    assert_eq!(State::from(2), State::Disconnected);
    assert_eq!(State::from(0), State::Unknown);
    assert_eq!(State::from(3), State::Unknown);
}

#[test]
fn info_from_reply() {
    let id = Id::from_raw(RawResourceHandle::new(40).unwrap());
    let reply = ConnectorReply { connector_type: 10, connection: 1, mm_width: 520, mm_height: 290 };
    let info = Info::from_reply(id, reply, vec![7, 0, 9]);
    assert_eq!(info.handle(), id);
    assert_eq!(info.connector_type(), Type::DisplayPort);
    assert_eq!(info.connection_state(), State::Connected);
    assert_eq!(info.size(), (520, 290));
    let encs: Vec<Option<u32>> = info.encoders().iter().map(|e| e.map(|h| h.as_raw().get())).collect();
    assert_eq!(encs, vec![Some(7), None, Some(9)]);
}

#[test]
fn error_codes() {
    assert_eq!(SystemError::from_errno(9), SystemError::InvalidFileDescriptor);
    assert_eq!(SystemError::from_errno(14), SystemError::MemoryFault);
    assert_eq!(SystemError::from_errno(22), SystemError::InvalidArgument);
    assert_eq!(SystemError::from_errno(25), SystemError::InvalidFileType);
    assert_eq!(SystemError::from_errno(13), SystemError::PermissionDenied);
    assert_eq!(SystemError::from_errno(5), SystemError::Unknown { errno: 5 });
    assert_eq!(SystemError::from_errno(13).description(), "permission denied");
    assert_eq!(SystemError::from_errno(5).description(), "unknown system error: 5");
    assert_eq!(SystemError::from_errno(110).description(), "unknown system error: 110");
    assert_eq!(SystemError::Unknown { errno: 0 }.description(), "unknown system error: 0");
    assert_eq!(SystemError::Unknown { errno: -42 }.description(), "unknown system error: -42");
    assert_eq!(
        SystemError::Unknown { errno: i32::MIN }.description(),
        "unknown system error: -2147483648"
    );
}
