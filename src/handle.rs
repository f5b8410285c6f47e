use vstd::prelude::*;

verus! {

/// A raw, untyped identifier of a mode-setting object. It is never zero.
#[derive(Clone, Copy, Debug, PartialEq, Eq, Structural)]
pub struct RawResourceHandle {
    id: u32,
}

impl RawResourceHandle {
    #[verifier::type_invariant]
    spec fn nonzero(self) -> bool {
        self.id != 0
    }

    /// The identifier as a number.
    pub closed spec fn view(self) -> u32 {
        self.id
    }

    /// The handle that holds `id`.
    pub closed spec fn spec_new(id: u32) -> RawResourceHandle {
        RawResourceHandle { id }
    }

    /// A raw handle is determined by its identifier.
    pub proof fn lemma_spec_new(id: u32, h: RawResourceHandle)
        ensures
            Self::spec_new(id)@ == id,
            Self::spec_new(h@) == h,
    {
    }

    /// Wraps a raw identifier; zero names no object and gives `None`.
    pub fn new(id: u32) -> (r: Option<RawResourceHandle>)
        ensures
            id == 0 <==> r is None,
            r matches Some(h) ==> h@ == id && h == Self::spec_new(id),
    {
        if id == 0 {
            None
        } else {
            Some(RawResourceHandle { id })
        }
    }

    /// The identifier as a number, never zero.
    pub fn get(&self) -> (r: u32)
        ensures
            r == self@,
            r != 0,
    {
        proof {
            use_type_invariant(self);
        }
        self.id
    }
}

/// The kind of mode-setting object that a handle refers to.
#[derive(Clone, Copy, Debug, PartialEq, Eq, Structural)]
pub enum ObjectType {
    Any,
    Connector,
    Crtc,
    Encoder,
    Framebuffer,
    Plane,
    Property,
}

/// A handle whose object kind is fixed by its type.
pub trait ResourceHandle: Sized {
    /// The raw identifier that the handle holds.
    spec fn raw_id(&self) -> u32;

    /// The object kind of every handle of this type.
    spec fn kind() -> ObjectType;

    /// The handle of this type that holds the identifier `id`.
    spec fn from_id(id: u32) -> Self;

    /// A handle is the one built from its own identifier.
    proof fn lemma_from_id(id: u32, h: Self)
        ensures
            Self::from_id(id).raw_id() == id,
            Self::from_id(h.raw_id()) == h,
    ;

    fn from_raw(raw: RawResourceHandle) -> (r: Self)
        ensures
            r.raw_id() == raw@,
            r == Self::from_id(raw@),
    ;

    fn as_raw(&self) -> (r: RawResourceHandle)
        ensures
            r@ == self.raw_id(),
    ;

    fn object_type() -> (r: ObjectType)
        ensures
            r == Self::kind(),
    ;
}

/// A handle whose object kind is known only when the program runs.
#[derive(Clone, Copy, Debug, PartialEq, Eq, Structural)]
pub struct AnyHandle {
    pub raw: RawResourceHandle,
    pub kind: ObjectType,
}

impl AnyHandle {
    /// Forgets the static kind of a typed handle, keeping it as a runtime tag.
    pub fn from_handle<H: ResourceHandle>(h: &H) -> (r: AnyHandle)
        ensures
            r.raw@ == h.raw_id(),
            r.kind == H::kind(),
    {
        AnyHandle { raw: h.as_raw(), kind: H::object_type() }
    }

    /// Narrows to a typed handle; fails unless the runtime tag is that type's kind.
    pub fn downcast<H: ResourceHandle>(&self) -> (r: Option<H>)
        ensures
            r is Some <==> self.kind == H::kind(),
            r matches Some(h) ==> h.raw_id() == self.raw@,
    {
        if self.kind == H::object_type() {
            Some(H::from_raw(self.raw))
        } else {
            None
        }
    }
}

impl ResourceHandle for RawResourceHandle {
    open spec fn raw_id(&self) -> u32 {
        self@
    }

    open spec fn kind() -> ObjectType {
        ObjectType::Any
    }

    open spec fn from_id(id: u32) -> Self {
        RawResourceHandle::spec_new(id)
    }

    proof fn lemma_from_id(id: u32, h: Self) {
        RawResourceHandle::lemma_spec_new(id, h);
    }

    fn from_raw(raw: RawResourceHandle) -> (r: Self) {
        proof {
            RawResourceHandle::lemma_spec_new(raw@, raw);
        }
        raw
    }

    fn as_raw(&self) -> (r: RawResourceHandle) {
        *self
    }

    fn object_type() -> (r: ObjectType) {
        ObjectType::Any
    }
}

/// A handle to a CRTC, a timing and scan-out engine.
#[derive(Clone, Copy, Debug, PartialEq, Eq, Structural)]
pub struct CrtcHandle {
    raw: RawResourceHandle,
}

impl CrtcHandle {
    /// The raw identifier of the handle.
    pub closed spec fn view(self) -> u32 {
        self.raw@
    }

    /// The handle that holds `id`.
    pub closed spec fn spec_new(id: u32) -> CrtcHandle {
        CrtcHandle { raw: RawResourceHandle::spec_new(id) }
    }

    /// A handle is determined by its identifier.
    pub proof fn lemma_spec_new(id: u32, h: CrtcHandle)
        ensures
            Self::spec_new(id)@ == id,
            Self::spec_new(h@) == h,
    {
        RawResourceHandle::lemma_spec_new(id, h.raw);
    }
}

impl ResourceHandle for CrtcHandle {
    open spec fn raw_id(&self) -> u32 {
        self@
    }

    open spec fn kind() -> ObjectType {
        ObjectType::Crtc
    }

    open spec fn from_id(id: u32) -> Self {
        CrtcHandle::spec_new(id)
    }

    proof fn lemma_from_id(id: u32, h: Self) {
        CrtcHandle::lemma_spec_new(id, h);
    }

    fn from_raw(raw: RawResourceHandle) -> (r: Self) {
        proof {
            RawResourceHandle::lemma_spec_new(raw@, raw);
        }
        CrtcHandle { raw }
    }

    fn as_raw(&self) -> (r: RawResourceHandle) {
        self.raw
    }

    fn object_type() -> (r: ObjectType) {
        ObjectType::Crtc
    }
}

/// A handle to an encoder.
#[derive(Clone, Copy, Debug, PartialEq, Eq, Structural)]
pub struct EncoderHandle {
    raw: RawResourceHandle,
}

impl EncoderHandle {
    /// The raw identifier of the handle.
    pub closed spec fn view(self) -> u32 {
        self.raw@
    }

    /// The handle that holds `id`.
    pub closed spec fn spec_new(id: u32) -> EncoderHandle {
        EncoderHandle { raw: RawResourceHandle::spec_new(id) }
    }

    /// A handle is determined by its identifier.
    pub proof fn lemma_spec_new(id: u32, h: EncoderHandle)
        ensures
            Self::spec_new(id)@ == id,
            Self::spec_new(h@) == h,
    {
        RawResourceHandle::lemma_spec_new(id, h.raw);
    }
}

impl ResourceHandle for EncoderHandle {
    open spec fn raw_id(&self) -> u32 {
        self@
    }

    open spec fn kind() -> ObjectType {
        ObjectType::Encoder
    }

    open spec fn from_id(id: u32) -> Self {
        EncoderHandle::spec_new(id)
    }

    proof fn lemma_from_id(id: u32, h: Self) {
        EncoderHandle::lemma_spec_new(id, h);
    }

    fn from_raw(raw: RawResourceHandle) -> (r: Self) {
        proof {
            RawResourceHandle::lemma_spec_new(raw@, raw);
        }
        EncoderHandle { raw }
    }

    fn as_raw(&self) -> (r: RawResourceHandle) {
        self.raw
    }

    fn object_type() -> (r: ObjectType) {
        ObjectType::Encoder
    }
}

/// A handle to a framebuffer.
#[derive(Clone, Copy, Debug, PartialEq, Eq, Structural)]
pub struct FramebufferHandle {
    raw: RawResourceHandle,
}

impl FramebufferHandle {
    /// The raw identifier of the handle.
    pub closed spec fn view(self) -> u32 {
        self.raw@
    }

    /// The handle that holds `id`.
    pub closed spec fn spec_new(id: u32) -> FramebufferHandle {
        FramebufferHandle { raw: RawResourceHandle::spec_new(id) }
    }

    /// A handle is determined by its identifier.
    pub proof fn lemma_spec_new(id: u32, h: FramebufferHandle)
        ensures
            Self::spec_new(id)@ == id,
            Self::spec_new(h@) == h,
    {
        RawResourceHandle::lemma_spec_new(id, h.raw);
    }
}

impl ResourceHandle for FramebufferHandle {
    open spec fn raw_id(&self) -> u32 {
        self@
    }

    open spec fn kind() -> ObjectType {
        ObjectType::Framebuffer
    }

    open spec fn from_id(id: u32) -> Self {
        FramebufferHandle::spec_new(id)
    }

    proof fn lemma_from_id(id: u32, h: Self) {
        FramebufferHandle::lemma_spec_new(id, h);
    }

    fn from_raw(raw: RawResourceHandle) -> (r: Self) {
        proof {
            RawResourceHandle::lemma_spec_new(raw@, raw);
        }
        FramebufferHandle { raw }
    }

    fn as_raw(&self) -> (r: RawResourceHandle) {
        self.raw
    }

    fn object_type() -> (r: ObjectType) {
        ObjectType::Framebuffer
    }
}

/// A handle to a plane.
#[derive(Clone, Copy, Debug, PartialEq, Eq, Structural)]
pub struct PlaneHandle {
    raw: RawResourceHandle,
}

impl PlaneHandle {
    /// The raw identifier of the handle.
    pub closed spec fn view(self) -> u32 {
        self.raw@
    }

    /// The handle that holds `id`.
    pub closed spec fn spec_new(id: u32) -> PlaneHandle {
        PlaneHandle { raw: RawResourceHandle::spec_new(id) }
    }

    /// A handle is determined by its identifier.
    pub proof fn lemma_spec_new(id: u32, h: PlaneHandle)
        ensures
            Self::spec_new(id)@ == id,
            Self::spec_new(h@) == h,
    {
        RawResourceHandle::lemma_spec_new(id, h.raw);
    }
}

impl ResourceHandle for PlaneHandle {
    open spec fn raw_id(&self) -> u32 {
        self@
    }

    open spec fn kind() -> ObjectType {
        ObjectType::Plane
    }

    open spec fn from_id(id: u32) -> Self {
        PlaneHandle::spec_new(id)
    }

    proof fn lemma_from_id(id: u32, h: Self) {
        PlaneHandle::lemma_spec_new(id, h);
    }

    fn from_raw(raw: RawResourceHandle) -> (r: Self) {
        proof {
            RawResourceHandle::lemma_spec_new(raw@, raw);
        }
        PlaneHandle { raw }
    }

    fn as_raw(&self) -> (r: RawResourceHandle) {
        self.raw
    }

    fn object_type() -> (r: ObjectType) {
        ObjectType::Plane
    }
}

} // verus!
