use vstd::prelude::*;

use crate::connector::Id as ConnectorId;
use crate::handle::{
    CrtcHandle, EncoderHandle, FramebufferHandle, ObjectType, PlaneHandle, RawResourceHandle,
    ResourceHandle,
};

verus! {

/// A raw property value, as the kernel passes it, before its type is known.
pub type RawValue = u64;

/// The most entries that the kernel reports for one enum property.
pub const MAX_ENUM_VALUES: usize = 24;

/// A handle to a property.
#[derive(Clone, Copy, Debug, PartialEq, Eq, Structural)]
pub struct Handle {
    raw: RawResourceHandle,
}

impl Handle {
    /// The raw identifier of the handle.
    pub closed spec fn view(self) -> u32 {
        self.raw@
    }

    /// The handle that holds `id`.
    pub closed spec fn spec_new(id: u32) -> Handle {
        Handle { raw: RawResourceHandle::spec_new(id) }
    }

    /// A handle is determined by its identifier.
    pub proof fn lemma_spec_new(id: u32, h: Handle)
        ensures
            Self::spec_new(id)@ == id,
            Self::spec_new(h@) == h,
    {
        RawResourceHandle::lemma_spec_new(id, h.raw);
    }
}

impl ResourceHandle for Handle {
    open spec fn raw_id(&self) -> u32 {
        self@
    }

    open spec fn kind() -> ObjectType {
        ObjectType::Property
    }

    open spec fn from_id(id: u32) -> Self {
        Handle::spec_new(id)
    }

    proof fn lemma_from_id(id: u32, h: Self) {
        Handle::lemma_spec_new(id, h);
    }

    fn from_raw(raw: RawResourceHandle) -> (r: Self) {
        proof {
            RawResourceHandle::lemma_spec_new(raw@, raw);
        }
        Handle { raw }
    }

    fn as_raw(&self) -> (r: RawResourceHandle) {
        self.raw
    }

    fn object_type() -> (r: ObjectType) {
        ObjectType::Property
    }
}

/// The bytes of a zero-padded name before its first zero byte.
pub open spec fn name_text(name: Seq<u8>) -> Seq<u8>
    decreases name.len(),
{
    if name.len() == 0 || name[0] == 0 {
        Seq::empty()
    } else {
        seq![name[0]] + name_text(name.drop_first())
    }
}

proof fn lemma_name_text(name: Seq<u8>, i: int)
    requires
        0 <= i <= name.len(),
        forall|k: int| 0 <= k < i ==> name[k] != 0,
    ensures
        name_text(name) == name.take(i) + name_text(name.skip(i)),
    decreases i,
{
    if i > 0 {
        lemma_name_text(name.drop_first(), i - 1);
        assert(name.drop_first().take(i - 1) =~= name.take(i).drop_first());
        assert(name.drop_first().skip(i - 1) =~= name.skip(i));
        assert(name.take(i) =~= seq![name[0]] + name.take(i).drop_first());
    } else {
        assert(name.skip(0) =~= name);
    }
}

fn name_bytes(name: &[u8; 32]) -> (r: Vec<u8>)
    ensures
        r@ == name_text(name@),
{
    let mut r: Vec<u8> = Vec::new();
    let mut i: usize = 0;
    while i < 32 && name[i] != 0
        invariant
            i <= 32,
            name@.len() == 32,
            r@ == name@.take(i as int),
            forall|k: int| 0 <= k < i ==> name@[k] != 0,
        decreases 32 - i,
    {
        r.push(name[i]);
        i = i + 1;
        assert(r@ =~= name@.take(i as int));
    }
    proof {
        lemma_name_text(name@, i as int);
        let rest = name@.skip(i as int);
        assert(rest.len() == 0 || rest[0] == 0);
        assert(name_text(rest) == Seq::<u8>::empty());
        assert(r@ =~= name@.take(i as int) + Seq::<u8>::empty());
    }
    r
}

/// One entry of an enum property's table: a raw value and its name, as the
/// kernel hands it over (the name's bytes, padded with zeros).
#[derive(Clone, Copy, Debug, PartialEq, Eq)]
pub struct EnumValue {
    pub value: u64,
    pub name: [u8; 32],
}

impl EnumValue {
    /// Returns the raw value of this entry.
    pub fn value(&self) -> (r: RawValue)
        ensures
            r == self.value,
    {
        self.value
    }

    /// Returns the bytes of the name, up to the first zero byte.
    pub fn name(&self) -> (r: Vec<u8>)
        ensures
            r@ == name_text(self.name@),
    {
        name_bytes(&self.name)
    }
}

/// The table of an enum property, as the kernel lists it: at most
/// `MAX_ENUM_VALUES` entries, in the kernel's order.
#[derive(Clone, Debug)]
pub struct EnumValues {
    entries: Vec<EnumValue>,
}

/// The first entry of a table that holds the raw value `raw`.
pub open spec fn find_enum(s: Seq<EnumValue>, raw: u64) -> Option<EnumValue>
    decreases s.len(),
{
    if s.len() == 0 {
        None
    } else if s[0].value == raw {
        Some(s[0])
    } else {
        find_enum(s.drop_first(), raw)
    }
}

/// The kernel reported more enum entries than a table can hold.
#[derive(Clone, Copy, Debug, PartialEq, Eq, Structural)]
pub struct TooManyEnumValues {
    pub count: usize,
}

impl EnumValues {
    /// The entries of the table, in order.
    pub closed spec fn view(self) -> Seq<EnumValue> {
        self.entries@
    }

    /// Every table holds at most `MAX_ENUM_VALUES` entries.
    pub closed spec fn wf(self) -> bool {
        self.entries@.len() <= MAX_ENUM_VALUES
    }

    /// Builds a table from the entries that the kernel listed; more than
    /// `MAX_ENUM_VALUES` entries are refused rather than cut off.
    pub fn new(entries: Vec<EnumValue>) -> (r: Result<EnumValues, TooManyEnumValues>)
        ensures
            entries@.len() <= MAX_ENUM_VALUES <==> r is Ok,
            r matches Ok(t) ==> t@ == entries@ && t.wf(),
            r matches Err(e) ==> e.count == entries@.len(),
    {
        if entries.len() <= MAX_ENUM_VALUES {
            Ok(EnumValues { entries })
        } else {
            Err(TooManyEnumValues { count: entries.len() })
        }
    }

    /// Returns the raw values of the table and its entries, in order.
    pub fn values(&self) -> (r: (Vec<RawValue>, &[EnumValue]))
        ensures
            r.0@ == self@.map_values(|e: EnumValue| e.value),
            r.1@ == self@,
    {
        let mut vals: Vec<RawValue> = Vec::new();
        let mut i: usize = 0;
        while i < self.entries.len()
            invariant
                i <= self.entries@.len(),
                vals@ == self.entries@.take(i as int).map_values(|e: EnumValue| e.value),
            decreases self.entries@.len() - i,
        {
            vals.push(self.entries[i].value);
            i = i + 1;
            assert(vals@ =~= self.entries@.take(i as int).map_values(|e: EnumValue| e.value));
        }
        assert(self.entries@.take(i as int) =~= self.entries@);
        (vals, self.entries.as_slice())
    }

    /// Looks up the entry that holds a raw value: the first such entry, or
    /// `None` where the table has none.
    pub fn get_value_from_raw_value(&self, value: RawValue) -> (r: Option<EnumValue>)
        ensures
            r == find_enum(self@, value),
    {
        let mut i: usize = 0;
        assert(self.entries@.skip(0) =~= self.entries@);
        while i < self.entries.len()
            invariant
                i <= self.entries@.len(),
                find_enum(self.entries@.skip(i as int), value) == find_enum(self.entries@, value),
            decreases self.entries@.len() - i,
        {
            let ghost rest = self.entries@.skip(i as int);
            assert(rest.drop_first() =~= self.entries@.skip(i + 1));
            if self.entries[i].value == value {
                return Some(self.entries[i]);
            }
            i = i + 1;
        }
        None
    }
}

/// How the raw values of a property are to be read.
#[derive(Clone, Debug)]
pub enum ValueType {
    /// A catch-all for any unknown type.
    Unknown,
    /// True or false.
    Boolean,
    /// An unsigned integer with a least and a greatest value.
    UnsignedRange(u64, u64),
    /// A signed integer with a least and a greatest value.
    SignedRange(i64, i64),
    /// One of a table of mutually exclusive values.
    Enum(EnumValues),
    /// A set of flags that can be combined.
    Bitmask,
    /// The id of a chunk of binary data that is fetched separately.
    Blob,
    /// Any mode-setting object.
    Object,
    CRTC,
    Connector,
    Encoder,
    Framebuffer,
    Plane,
    Property,
}

/// The value of a property, read according to its type.
#[derive(Clone, Copy, Debug, PartialEq, Eq)]
pub enum Value {
    Unknown(RawValue),
    Boolean(bool),
    UnsignedRange(u64),
    SignedRange(i64),
    Enum(EnumValue),
    Bitmask(u64),
    Blob(u64),
    Object(Option<RawResourceHandle>),
    CRTC(Option<CrtcHandle>),
    Connector(Option<ConnectorId>),
    Encoder(Option<EncoderHandle>),
    Framebuffer(Option<FramebufferHandle>),
    Plane(Option<PlaneHandle>),
    Property(Option<Handle>),
}

/// The handle that a raw object reference names: none for zero.
pub open spec fn handle_of<H: ResourceHandle>(id: u32) -> Option<H> {
    if id == 0 {
        None
    } else {
        Some(H::from_id(id))
    }
}

/// The raw object reference of an optional handle: zero for none.
pub open spec fn id_of<H: ResourceHandle>(h: Option<H>) -> u32 {
    match h {
        Some(h) => h.raw_id(),
        None => 0,
    }
}

/// Whether an optional handle names no object by the identifier zero.
pub open spec fn id_valid<H: ResourceHandle>(h: Option<H>) -> bool {
    match h {
        Some(h) => h.raw_id() != 0,
        None => true,
    }
}

/// What a raw value of a property of type `t` reads as; `None` where an enum
/// table holds no entry for it.
pub open spec fn decode(t: ValueType, raw: u64) -> Option<Value> {
    match t {
        ValueType::Unknown => Some(Value::Unknown(raw)),
        ValueType::Boolean => Some(Value::Boolean(raw != 0)),
        ValueType::UnsignedRange(_, _) => Some(Value::UnsignedRange(raw)),
        ValueType::SignedRange(_, _) => Some(Value::SignedRange(raw as i64)),
        ValueType::Enum(values) => match find_enum(values@, raw) {
            Some(e) => Some(Value::Enum(e)),
            None => None,
        },
        ValueType::Bitmask => Some(Value::Bitmask(raw)),
        ValueType::Blob => Some(Value::Blob(raw)),
        ValueType::Object => Some(Value::Object(handle_of(raw as u32))),
        ValueType::CRTC => Some(Value::CRTC(handle_of(raw as u32))),
        ValueType::Connector => Some(Value::Connector(handle_of(raw as u32))),
        ValueType::Encoder => Some(Value::Encoder(handle_of(raw as u32))),
        ValueType::Framebuffer => Some(Value::Framebuffer(handle_of(raw as u32))),
        ValueType::Plane => Some(Value::Plane(handle_of(raw as u32))),
        ValueType::Property => Some(Value::Property(handle_of(raw as u32))),
    }
}

/// The raw value that a typed value is passed to the kernel as.
pub open spec fn encode(v: Value) -> u64 {
    match v {
        Value::Unknown(x) => x,
        Value::Boolean(b) => if b { 1 } else { 0 },
        Value::UnsignedRange(x) => x,
        Value::SignedRange(x) => x as u64,
        Value::Enum(e) => e.value,
        Value::Bitmask(x) => x,
        Value::Blob(x) => x,
        Value::Object(h) => id_of(h) as u64,
        Value::CRTC(h) => id_of(h) as u64,
        Value::Connector(h) => id_of(h) as u64,
        Value::Encoder(h) => id_of(h) as u64,
        Value::Framebuffer(h) => id_of(h) as u64,
        Value::Plane(h) => id_of(h) as u64,
        Value::Property(h) => id_of(h) as u64,
    }
}

fn handle_from_raw<H: ResourceHandle>(raw: u64) -> (r: Option<H>)
    ensures
        r == handle_of::<H>(raw as u32),
{
    match RawResourceHandle::new(raw as u32) {
        Some(h) => Some(H::from_raw(h)),
        None => None,
    }
}

fn raw_from_handle<H: ResourceHandle>(h: &Option<H>) -> (r: u64)
    ensures
        r == id_of(*h) as u64,
{
    match h {
        Some(h) => h.as_raw().get() as u64,
        None => 0,
    }
}

impl ValueType {
    /// Reads a raw value as a value of this type. Booleans are true for any
    /// nonzero value; ranges reinterpret the bits; an enum value is looked up
    /// in the table, and a value that the table lacks gives `None`; object
    /// references take the low 32 bits, zero meaning no object.
    pub fn convert_value(&self, value: RawValue) -> (r: Option<Value>)
        ensures
            r == decode(*self, value),
    {
        match self {
            ValueType::Unknown => Some(Value::Unknown(value)),
            ValueType::Boolean => Some(Value::Boolean(value != 0)),
            ValueType::UnsignedRange(_, _) => Some(Value::UnsignedRange(value)),
            ValueType::SignedRange(_, _) => Some(Value::SignedRange(value as i64)),
            ValueType::Enum(values) => match values.get_value_from_raw_value(value) {
                Some(e) => Some(Value::Enum(e)),
                None => None,
            },
            ValueType::Bitmask => Some(Value::Bitmask(value)),
            ValueType::Blob => Some(Value::Blob(value)),
            ValueType::Object => Some(Value::Object(handle_from_raw(value))),
            ValueType::CRTC => Some(Value::CRTC(handle_from_raw(value))),
            ValueType::Connector => Some(Value::Connector(handle_from_raw(value))),
            ValueType::Encoder => Some(Value::Encoder(handle_from_raw(value))),
            ValueType::Framebuffer => Some(Value::Framebuffer(handle_from_raw(value))),
            ValueType::Plane => Some(Value::Plane(handle_from_raw(value))),
            ValueType::Property => Some(Value::Property(handle_from_raw(value))),
        }
    }
}

impl Value {
    /// The raw value that this value is passed to the kernel as: booleans as
    /// 0 or 1, handles as their identifier (0 for none), enum entries as their
    /// stored raw value.
    pub fn to_raw(&self) -> (r: RawValue)
        ensures
            r == encode(*self),
    {
        match self {
            Value::Unknown(x) => *x,
            Value::Boolean(b) => if *b { 1 } else { 0 },
            Value::UnsignedRange(x) => *x,
            Value::SignedRange(x) => *x as u64,
            Value::Enum(e) => e.value(),
            Value::Bitmask(x) => *x,
            Value::Blob(x) => *x,
            Value::Object(h) => raw_from_handle(h),
            Value::CRTC(h) => raw_from_handle(h),
            Value::Connector(h) => raw_from_handle(h),
            Value::Encoder(h) => raw_from_handle(h),
            Value::Framebuffer(h) => raw_from_handle(h),
            Value::Plane(h) => raw_from_handle(h),
            Value::Property(h) => raw_from_handle(h),
        }
    }
}

impl From<Value> for u64 {
    fn from(v: Value) -> (r: u64)
        ensures
            r == encode(v),
    {
        v.to_raw()
    }
}

impl vstd::std_specs::convert::FromSpecImpl<Value> for u64 {
    open spec fn obeys_from_spec() -> bool {
        true
    }

    open spec fn from_spec(v: Value) -> u64 {
        encode(v)
    }
}

/// What is known of a property: its handle, its name, how its values are
/// read, and whether it can be changed, and changed atomically.
#[derive(Clone, Debug)]
pub struct Info {
    handle: Handle,
    name: [u8; 32],
    val_type: ValueType,
    mutable: bool,
    atomic: bool,
    flags: u32,
}

impl Info {
    pub closed spec fn spec_handle(&self) -> Handle {
        self.handle
    }

    pub closed spec fn spec_name(&self) -> Seq<u8> {
        self.name@
    }

    pub closed spec fn spec_value_type(&self) -> ValueType {
        self.val_type
    }

    pub closed spec fn spec_mutable(&self) -> bool {
        self.mutable
    }

    pub closed spec fn spec_atomic(&self) -> bool {
        self.atomic
    }

    pub closed spec fn spec_flags(&self) -> u32 {
        self.flags
    }

    /// Gathers what the kernel reported of a property. The value type is
    /// fixed here, once; the kernel's raw flag bits are kept as they came,
    /// for diagnostics.
    pub fn new(
        handle: Handle,
        name: [u8; 32],
        val_type: ValueType,
        mutable: bool,
        atomic: bool,
        flags: u32,
    ) -> (r: Info)
        ensures
            r.spec_handle() == handle,
            r.spec_name() == name@,
            r.spec_value_type() == val_type,
            r.spec_mutable() == mutable,
            r.spec_atomic() == atomic,
            r.spec_flags() == flags,
    {
        Info { handle, name, val_type, mutable, atomic, flags }
    }

    /// Returns the raw flag bits that the kernel reported for this property.
    pub fn flags(&self) -> (r: u32)
        ensures
            r == self.spec_flags(),
    {
        self.flags
    }

    /// Returns the handle of this property.
    pub fn handle(&self) -> (r: Handle)
        ensures
            r == self.spec_handle(),
    {
        self.handle
    }

    /// Returns the name of this property, up to its first zero byte.
    pub fn name(&self) -> (r: Vec<u8>)
        ensures
            r@ == name_text(self.spec_name()),
    {
        name_bytes(&self.name)
    }

    /// Returns how the values of this property are read.
    pub fn value_type(&self) -> (r: &ValueType)
        ensures
            *r == self.spec_value_type(),
    {
        &self.val_type
    }

    /// Returns whether this property is mutable.
    pub fn mutable(&self) -> (r: bool)
        ensures
            r == self.spec_mutable(),
    {
        self.mutable
    }

    /// Returns whether this property can be atomically updated.
    pub fn atomic(&self) -> (r: bool)
        ensures
            r == self.spec_atomic(),
    {
        self.atomic
    }
}

fn same_entry(a: &EnumValue, b: &EnumValue) -> (r: bool)
    ensures
        r == (a.value == b.value && a.name@ == b.name@),
{
    if a.value != b.value {
        return false;
    }
    let mut i: usize = 0;
    while i < 32
        invariant
            i <= 32,
            a.name@.len() == 32,
            b.name@.len() == 32,
            forall|k: int| 0 <= k < i ==> a.name@[k] == b.name@[k],
        decreases 32 - i,
    {
        if a.name[i] != b.name[i] {
            return false;
        }
        i = i + 1;
    }
    assert(a.name@ =~= b.name@);
    true
}

/// Whether two tables list the same entries: the same raw values and the
/// same name bytes, in the same order.
pub open spec fn same_entries(a: Seq<EnumValue>, b: Seq<EnumValue>) -> bool {
    &&& a.len() == b.len()
    &&& forall|k: int|
        #![trigger a[k]]
        0 <= k < a.len() ==> a[k].value == b[k].value && a[k].name@ == b[k].name@
}

impl PartialEq for EnumValues {
    fn eq(&self, other: &EnumValues) -> (r: bool) {
        if self.entries.len() != other.entries.len() {
            return false;
        }
        let mut i: usize = 0;
        while i < self.entries.len()
            invariant
                i <= self.entries@.len(),
                self.entries@.len() == other.entries@.len(),
                forall|k: int|
                    #![trigger self.entries@[k]]
                    0 <= k < i ==> self.entries@[k].value == other.entries@[k].value
                        && self.entries@[k].name@ == other.entries@[k].name@,
            decreases self.entries@.len() - i,
        {
            if !same_entry(&self.entries[i], &other.entries[i]) {
                return false;
            }
            assert(self.entries@[i as int].value == other.entries@[i as int].value);
            i = i + 1;
        }
        true
    }
}

impl vstd::std_specs::cmp::PartialEqSpecImpl for EnumValues {
    open spec fn obeys_eq_spec() -> bool {
        true
    }

    open spec fn eq_spec(&self, other: &EnumValues) -> bool {
        same_entries(self@, other@)
    }
}

impl Eq for EnumValues {}

/// Whether two value types are the same: the same kind, the same bounds for
/// a range, and the same entries for an enum.
pub open spec fn same_type(a: ValueType, b: ValueType) -> bool {
    match (a, b) {
        (ValueType::Unknown, ValueType::Unknown) => true,
        (ValueType::Boolean, ValueType::Boolean) => true,
        (ValueType::UnsignedRange(x0, x1), ValueType::UnsignedRange(y0, y1)) => x0 == y0 && x1 == y1,
        (ValueType::SignedRange(x0, x1), ValueType::SignedRange(y0, y1)) => x0 == y0 && x1 == y1,
        (ValueType::Enum(x), ValueType::Enum(y)) => same_entries(x@, y@),
        (ValueType::Bitmask, ValueType::Bitmask) => true,
        (ValueType::Blob, ValueType::Blob) => true,
        (ValueType::Object, ValueType::Object) => true,
        (ValueType::CRTC, ValueType::CRTC) => true,
        (ValueType::Connector, ValueType::Connector) => true,
        (ValueType::Encoder, ValueType::Encoder) => true,
        (ValueType::Framebuffer, ValueType::Framebuffer) => true,
        (ValueType::Plane, ValueType::Plane) => true,
        (ValueType::Property, ValueType::Property) => true,
        _ => false,
    }
}

impl PartialEq for ValueType {
    fn eq(&self, other: &ValueType) -> (r: bool) {
        match (self, other) {
            (ValueType::Unknown, ValueType::Unknown) => true,
            (ValueType::Boolean, ValueType::Boolean) => true,
            (ValueType::UnsignedRange(x0, x1), ValueType::UnsignedRange(y0, y1)) => *x0 == *y0 && *x1 == *y1,
            (ValueType::SignedRange(x0, x1), ValueType::SignedRange(y0, y1)) => *x0 == *y0 && *x1 == *y1,
            (ValueType::Enum(x), ValueType::Enum(y)) => x.eq(y),
            (ValueType::Bitmask, ValueType::Bitmask) => true,
            (ValueType::Blob, ValueType::Blob) => true,
            (ValueType::Object, ValueType::Object) => true,
            (ValueType::CRTC, ValueType::CRTC) => true,
            (ValueType::Connector, ValueType::Connector) => true,
            (ValueType::Encoder, ValueType::Encoder) => true,
            (ValueType::Framebuffer, ValueType::Framebuffer) => true,
            (ValueType::Plane, ValueType::Plane) => true,
            (ValueType::Property, ValueType::Property) => true,
            _ => false,
        }
    }
}

impl vstd::std_specs::cmp::PartialEqSpecImpl for ValueType {
    open spec fn obeys_eq_spec() -> bool {
        true
    }

    open spec fn eq_spec(&self, other: &ValueType) -> bool {
        same_type(*self, *other)
    }
}

impl Eq for ValueType {}

impl PartialEq for Info {
    fn eq(&self, other: &Info) -> (r: bool) {
        self.handle == other.handle && self.mutable == other.mutable && self.atomic == other.atomic
            && self.flags == other.flags && self.val_type.eq(&other.val_type) && same_name(&self.name, &other.name)
    }
}

impl vstd::std_specs::cmp::PartialEqSpecImpl for Info {
    open spec fn obeys_eq_spec() -> bool {
        true
    }

    open spec fn eq_spec(&self, other: &Info) -> bool {
        &&& self.spec_handle() == other.spec_handle()
        &&& self.spec_name() == other.spec_name()
        &&& same_type(self.spec_value_type(), other.spec_value_type())
        &&& self.spec_mutable() == other.spec_mutable()
        &&& self.spec_atomic() == other.spec_atomic()
        &&& self.spec_flags() == other.spec_flags()
    }
}

impl Eq for Info {}

fn same_name(a: &[u8; 32], b: &[u8; 32]) -> (r: bool)
    ensures
        r == (a@ == b@),
{
    let mut i: usize = 0;
    while i < 32
        invariant
            i <= 32,
            a@.len() == 32,
            b@.len() == 32,
            forall|k: int| 0 <= k < i ==> a@[k] == b@[k],
        decreases 32 - i,
    {
        if a[i] != b[i] {
            return false;
        }
        i = i + 1;
    }
    assert(a@ =~= b@);
    true
}

/// Whether no two entries of a table hold the same raw value.
pub open spec fn distinct_values(s: Seq<EnumValue>) -> bool {
    forall|i: int, j: int| 0 <= i < j < s.len() ==> s[i].value != s[j].value
}

/// Whether `v` is a value of a property of type `t`: of the matching kind,
/// an enum entry of the table, and a handle never the identifier zero.
pub open spec fn is_value_of(t: ValueType, v: Value) -> bool {
    match (t, v) {
        (ValueType::Unknown, Value::Unknown(_)) => true,
        (ValueType::Boolean, Value::Boolean(_)) => true,
        (ValueType::UnsignedRange(_, _), Value::UnsignedRange(_)) => true,
        (ValueType::SignedRange(_, _), Value::SignedRange(_)) => true,
        (ValueType::Enum(values), Value::Enum(e)) => values@.contains(e),
        (ValueType::Bitmask, Value::Bitmask(_)) => true,
        (ValueType::Blob, Value::Blob(_)) => true,
        (ValueType::Object, Value::Object(h)) => id_valid(h),
        (ValueType::CRTC, Value::CRTC(h)) => id_valid(h),
        (ValueType::Connector, Value::Connector(h)) => id_valid(h),
        (ValueType::Encoder, Value::Encoder(h)) => id_valid(h),
        (ValueType::Framebuffer, Value::Framebuffer(h)) => id_valid(h),
        (ValueType::Plane, Value::Plane(h)) => id_valid(h),
        (ValueType::Property, Value::Property(h)) => id_valid(h),
        _ => false,
    }
}

/// Whether `raw` is a raw value that a property of type `t` can hold: 0 or 1
/// for a boolean, a 32-bit identifier for an object reference, and a value
/// that the table lists for an enum.
pub open spec fn is_raw_of(t: ValueType, raw: u64) -> bool {
    match t {
        ValueType::Boolean => raw <= 1,
        ValueType::Enum(values) => find_enum(values@, raw) is Some,
        ValueType::Object | ValueType::CRTC | ValueType::Connector | ValueType::Encoder
        | ValueType::Framebuffer | ValueType::Plane | ValueType::Property => raw <= u32::MAX,
        _ => true,
    }
}

proof fn lemma_find_enum_contains(s: Seq<EnumValue>, e: EnumValue)
    requires
        distinct_values(s),
        s.contains(e),
    ensures
        find_enum(s, e.value) == Some(e),
    decreases s.len(),
{
    let k = choose|k: int| 0 <= k < s.len() && s[k] == e;
    if s[0] != e {
        if s[0].value == e.value {
            assert(s[0].value != s[k].value);
        }
        let t = s.drop_first();
        assert(t[k - 1] == e);
        assert(distinct_values(t)) by {
            assert forall|i: int, j: int| 0 <= i < j < t.len() implies t[i].value != t[j].value by {
                assert(t[i] == s[i + 1] && t[j] == s[j + 1]);
            }
        }
        lemma_find_enum_contains(t, e);
    }
}

proof fn lemma_find_enum_value(s: Seq<EnumValue>, raw: u64)
    ensures
        find_enum(s, raw) matches Some(e) ==> e.value == raw,
    decreases s.len(),
{
    if s.len() > 0 && s[0].value != raw {
        lemma_find_enum_value(s.drop_first(), raw);
    }
}

proof fn lemma_handle_round_trip<H: ResourceHandle>(h: Option<H>)
    requires
        id_valid(h),
    ensures
        handle_of::<H>(id_of(h) as u64 as u32) == h,
{
    if let Some(x) = h {
        H::lemma_from_id(x.raw_id(), x);
    }
}

proof fn lemma_id_round_trip<H: ResourceHandle>(raw: u64)
    requires
        raw <= u32::MAX,
    ensures
        id_of(handle_of::<H>(raw as u32)) as u64 == raw,
{
    if raw != 0 {
        H::lemma_from_id(raw as u32, H::from_id(raw as u32));
    }
}

/// Reading back the raw form of a value of a property gives the value again,
/// for every type whose enum table, if any, lists each raw value once.
pub proof fn lemma_decode_encode(t: ValueType, v: Value)
    requires
        is_value_of(t, v),
        t matches ValueType::Enum(values) ==> distinct_values(values@),
    ensures
        decode(t, encode(v)) == Some(v),
{
    match (t, v) {
        (ValueType::SignedRange(_, _), Value::SignedRange(x)) => {
            assert((x as u64) as i64 == x) by (bit_vector);
        },
        (ValueType::Enum(values), Value::Enum(e)) => {
            lemma_find_enum_contains(values@, e);
        },
        (ValueType::Object, Value::Object(h)) => lemma_handle_round_trip(h),
        (ValueType::CRTC, Value::CRTC(h)) => lemma_handle_round_trip(h),
        (ValueType::Connector, Value::Connector(h)) => lemma_handle_round_trip(h),
        (ValueType::Encoder, Value::Encoder(h)) => lemma_handle_round_trip(h),
        (ValueType::Framebuffer, Value::Framebuffer(h)) => lemma_handle_round_trip(h),
        (ValueType::Plane, Value::Plane(h)) => lemma_handle_round_trip(h),
        (ValueType::Property, Value::Property(h)) => lemma_handle_round_trip(h),
        _ => {},
    }
}

/// Reading a raw value that a property can hold, then taking the raw form of
/// the result, gives the raw value back.
pub proof fn lemma_encode_decode(t: ValueType, raw: u64)
    requires
        is_raw_of(t, raw),
    ensures
        decode(t, raw) matches Some(v) && encode(v) == raw,
{
    match t {
        ValueType::SignedRange(_, _) => {
            assert((raw as i64) as u64 == raw) by (bit_vector);
        },
        ValueType::Enum(values) => lemma_find_enum_value(values@, raw),
        ValueType::Object => lemma_id_round_trip::<RawResourceHandle>(raw),
        ValueType::CRTC => lemma_id_round_trip::<CrtcHandle>(raw),
        ValueType::Connector => lemma_id_round_trip::<ConnectorId>(raw),
        ValueType::Encoder => lemma_id_round_trip::<EncoderHandle>(raw),
        ValueType::Framebuffer => lemma_id_round_trip::<FramebufferHandle>(raw),
        ValueType::Plane => lemma_id_round_trip::<PlaneHandle>(raw),
        ValueType::Property => lemma_id_round_trip::<Handle>(raw),
        _ => {},
    }
}

} // verus!
