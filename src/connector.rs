use vstd::prelude::*;

use crate::handle::{EncoderHandle, ObjectType, RawResourceHandle, ResourceHandle};

verus! {

/// A handle to a connector, a physical display output.
#[derive(Clone, Copy, Debug, PartialEq, Eq, Structural)]
pub struct Id {
    raw: RawResourceHandle,
}

impl Id {
    /// The raw identifier of the handle.
    pub closed spec fn view(self) -> u32 {
        self.raw@
    }

    /// The handle that holds `id`.
    pub closed spec fn spec_new(id: u32) -> Id {
        Id { raw: RawResourceHandle::spec_new(id) }
    }

    /// A handle is determined by its identifier.
    pub proof fn lemma_spec_new(id: u32, h: Id)
        ensures
            Self::spec_new(id)@ == id,
            Self::spec_new(h@) == h,
    {
        RawResourceHandle::lemma_spec_new(id, h.raw);
    }
}

impl ResourceHandle for Id {
    open spec fn raw_id(&self) -> u32 {
        self@
    }

    open spec fn kind() -> ObjectType {
        ObjectType::Connector
    }

    open spec fn from_id(id: u32) -> Self {
        Id::spec_new(id)
    }

    proof fn lemma_from_id(id: u32, h: Self) {
        Id::lemma_spec_new(id, h);
    }

    fn from_raw(raw: RawResourceHandle) -> (r: Self) {
        proof {
            RawResourceHandle::lemma_spec_new(raw@, raw);
        }
        Id { raw }
    }

    fn as_raw(&self) -> (r: RawResourceHandle) {
        self.raw
    }

    fn object_type() -> (r: ObjectType) {
        ObjectType::Connector
    }
}

/// The kernel's codes of connector types.
pub const CONNECTOR_UNKNOWN: u32 = 0;
pub const CONNECTOR_VGA: u32 = 1;
pub const CONNECTOR_DVII: u32 = 2;
pub const CONNECTOR_DVID: u32 = 3;
pub const CONNECTOR_DVIA: u32 = 4;
pub const CONNECTOR_COMPOSITE: u32 = 5;
pub const CONNECTOR_SVIDEO: u32 = 6;
pub const CONNECTOR_LVDS: u32 = 7;
pub const CONNECTOR_COMPONENT: u32 = 8;
pub const CONNECTOR_NINE_PIN_DIN: u32 = 9;
pub const CONNECTOR_DISPLAY_PORT: u32 = 10;
pub const CONNECTOR_HDMIA: u32 = 11;
pub const CONNECTOR_HDMIB: u32 = 12;
pub const CONNECTOR_TV: u32 = 13;
pub const CONNECTOR_EDP: u32 = 14;
pub const CONNECTOR_VIRTUAL: u32 = 15;
pub const CONNECTOR_DSI: u32 = 16;
pub const CONNECTOR_DPI: u32 = 17;

/// The physical type of a connector.
#[derive(Clone, Copy, Debug, PartialEq, Eq, Structural)]
pub enum Type {
    Unknown,
    VGA,
    DVII,
    DVID,
    DVIA,
    Composite,
    SVideo,
    LVDS,
    Component,
    NinePinDIN,
    DisplayPort,
    HDMIA,
    HDMIB,
    TV,
    EmbeddedDisplayPort,
    Virtual,
    DSI,
    DPI,
}

/// The connector type that a kernel code stands for; unknown codes give
/// `Type::Unknown`.
pub open spec fn type_of(n: u32) -> Type {
    match n {
        CONNECTOR_VGA => Type::VGA,
        CONNECTOR_DVII => Type::DVII,
        CONNECTOR_DVID => Type::DVID,
        CONNECTOR_DVIA => Type::DVIA,
        CONNECTOR_COMPOSITE => Type::Composite,
        CONNECTOR_SVIDEO => Type::SVideo,
        CONNECTOR_LVDS => Type::LVDS,
        CONNECTOR_COMPONENT => Type::Component,
        CONNECTOR_NINE_PIN_DIN => Type::NinePinDIN,
        CONNECTOR_DISPLAY_PORT => Type::DisplayPort,
        CONNECTOR_HDMIA => Type::HDMIA,
        CONNECTOR_HDMIB => Type::HDMIB,
        CONNECTOR_TV => Type::TV,
        CONNECTOR_EDP => Type::EmbeddedDisplayPort,
        CONNECTOR_VIRTUAL => Type::Virtual,
        CONNECTOR_DSI => Type::DSI,
        CONNECTOR_DPI => Type::DPI,
        _ => Type::Unknown,
    }
}

impl From<u32> for Type {
    fn from(n: u32) -> (r: Type)
        ensures
            r == type_of(n),
    {
        match n {
        CONNECTOR_VGA => Type::VGA,
        CONNECTOR_DVII => Type::DVII,
        CONNECTOR_DVID => Type::DVID,
        CONNECTOR_DVIA => Type::DVIA,
        CONNECTOR_COMPOSITE => Type::Composite,
        CONNECTOR_SVIDEO => Type::SVideo,
        CONNECTOR_LVDS => Type::LVDS,
        CONNECTOR_COMPONENT => Type::Component,
        CONNECTOR_NINE_PIN_DIN => Type::NinePinDIN,
        CONNECTOR_DISPLAY_PORT => Type::DisplayPort,
        CONNECTOR_HDMIA => Type::HDMIA,
        CONNECTOR_HDMIB => Type::HDMIB,
        CONNECTOR_TV => Type::TV,
        CONNECTOR_EDP => Type::EmbeddedDisplayPort,
        CONNECTOR_VIRTUAL => Type::Virtual,
        CONNECTOR_DSI => Type::DSI,
        CONNECTOR_DPI => Type::DPI,
            _ => Type::Unknown,
        }
    }
}

impl vstd::std_specs::convert::FromSpecImpl<u32> for Type {
    open spec fn obeys_from_spec() -> bool {
        true
    }

    open spec fn from_spec(n: u32) -> Type {
        type_of(n)
    }
}

/// Whether a connector has a display attached.
#[derive(Clone, Copy, Debug, PartialEq, Eq, Structural)]
pub enum State {
    Connected,
    Disconnected,
    Unknown,
}

/// The connection state that a kernel code stands for: 1 connected, 2
/// disconnected, anything else unknown.
pub open spec fn state_of(n: u32) -> State {
    match n {
        1 => State::Connected,
        2 => State::Disconnected,
        _ => State::Unknown,
    }
}

impl From<u32> for State {
    fn from(n: u32) -> (r: State)
        ensures
            r == state_of(n),
    {
        match n {
            1 => State::Connected,
            2 => State::Disconnected,
            _ => State::Unknown,
        }
    }
}

impl vstd::std_specs::convert::FromSpecImpl<u32> for State {
    open spec fn obeys_from_spec() -> bool {
        true
    }

    open spec fn from_spec(n: u32) -> State {
        state_of(n)
    }
}

/// The fixed-size fields of the kernel's reply to a connector query.
#[derive(Clone, Copy, Debug, PartialEq, Eq, Structural)]
pub struct ConnectorReply {
    pub connector_type: u32,
    pub connection: u32,
    pub mm_width: u32,
    pub mm_height: u32,
}

/// The id of an optional encoder: 0 for none.
pub open spec fn encoder_id(e: Option<EncoderHandle>) -> u32 {
    match e {
        Some(h) => h@,
        None => 0,
    }
}

/// A snapshot of a connector's state. It does not change: a fresh query is
/// needed to see what the kernel changed since. Its encoder list keeps every
/// entry that the kernel reported, in order; an entry of id 0 names no
/// encoder and is `None`.
#[derive(Clone, Debug)]
pub struct Info {
    handle: Id,
    encoders: Vec<Option<EncoderHandle>>,
    con_type: Type,
    con_state: State,
    mm_width: u32,
    mm_height: u32,
}

impl Info {
    /// The connector that this is a snapshot of.
    pub closed spec fn spec_handle(&self) -> Id {
        self.handle
    }

    /// The encoder entries of the connector, in the kernel's order.
    pub closed spec fn spec_encoders(&self) -> Seq<Option<EncoderHandle>> {
        self.encoders@
    }

    /// The connector's type.
    pub closed spec fn spec_type(&self) -> Type {
        self.con_type
    }

    /// The connector's state.
    pub closed spec fn spec_state(&self) -> State {
        self.con_state
    }

    /// The physical size, in millimetres.
    pub closed spec fn spec_size(&self) -> (u32, u32) {
        (self.mm_width, self.mm_height)
    }

    /// Builds the snapshot from the kernel's reply and the encoder ids that
    /// its own two-phase fetch brought. The codes are classified; every encoder
    /// id is kept, in order, as a handle, or as `None` where it is 0.
    pub fn from_reply(handle: Id, reply: ConnectorReply, encoder_ids: Vec<u32>) -> (r: Info)
        ensures
            r.spec_handle() == handle,
            r.spec_encoders().len() == encoder_ids@.len(),
            forall|i: int|
                0 <= i < encoder_ids@.len() ==> encoder_id(#[trigger] r.spec_encoders()[i]) == encoder_ids@[i]
                    && (r.spec_encoders()[i] is None <==> encoder_ids@[i] == 0),
            r.spec_type() == type_of(reply.connector_type),
            r.spec_state() == state_of(reply.connection),
            r.spec_size() == (reply.mm_width, reply.mm_height),
    {
        let mut encoders: Vec<Option<EncoderHandle>> = Vec::new();
        let mut i: usize = 0;
        while i < encoder_ids.len()
            invariant
                i <= encoder_ids@.len(),
                encoders@.len() == i,
                forall|k: int|
                    0 <= k < i ==> encoder_id(#[trigger] encoders@[k]) == encoder_ids@[k]
                        && (encoders@[k] is None <==> encoder_ids@[k] == 0),
            decreases encoder_ids@.len() - i,
        {
            match RawResourceHandle::new(encoder_ids[i]) {
                Some(raw) => {
                    let h = EncoderHandle::from_raw(raw);
                    encoders.push(Some(h));
                },
                None => {
                    encoders.push(None);
                },
            }
            i = i + 1;
        }
        Info {
            handle,
            encoders,
            con_type: Type::from(reply.connector_type),
            con_state: State::from(reply.connection),
            mm_width: reply.mm_width,
            mm_height: reply.mm_height,
        }
    }

    /// Returns the connector that this is a snapshot of.
    pub fn handle(&self) -> (r: Id)
        ensures
            r == self.spec_handle(),
    {
        self.handle
    }

    /// Returns the encoder entries of the connector, in the kernel's order.
    pub fn encoders(&self) -> (r: &[Option<EncoderHandle>])
        ensures
            r@ == self.spec_encoders(),
    {
        self.encoders.as_slice()
    }

    /// Returns the type of connector this is.
    pub fn connector_type(&self) -> (r: Type)
        ensures
            r == self.spec_type(),
    {
        self.con_type
    }

    /// Returns the state of this connector.
    pub fn connection_state(&self) -> (r: State)
        ensures
            r == self.spec_state(),
    {
        self.con_state
    }

    /// Returns the physical size, in millimetres (width, height).
    pub fn size(&self) -> (r: (u32, u32))
        ensures
            r == self.spec_size(),
    {
        (self.mm_width, self.mm_height)
    }
}

} // verus!
