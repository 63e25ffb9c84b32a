//! In-memory model of the host embedding ABI.
//!
//! The real host runtime sits behind a flat table of native functions, each
//! taking an environment handle and returning a status code plus
//! out-parameters.  This module models that contract: an environment is a
//! growable store of runtime values, a value handle is an index into it, and
//! every table entry is a function over the store that reports a status.
//! The store only ever grows during a call; a slot never changes its runtime
//! type, and only object slots mutate (their properties and elements).
//!
//! Model conventions, where the real runtime's behavior is out of scope:
//! numbers carry a signed 64-bit payload (the host's floating-point range is
//! not modeled), coercing a string or plain object to a number yields 0, and
//! coercing a plain object to a string yields "[object Object]".

use vstd::prelude::*;

use crate::text::dec_int;
use crate::text::decode_latin1;
use crate::text::decode_utf16;
use crate::text::encode_latin1;
use crate::text::encode_utf16;
use crate::text::i64_to_dec;
use crate::text::latin1_decode;
use crate::text::latin1_encode;
use crate::text::utf16_decode;
use crate::text::utf16_encode;

verus! {

/// Opaque handle to a value in the host runtime's object graph: an index
/// into the issuing environment's slot store.  Meaningless under any other
/// environment.
#[derive(Clone, Copy, Debug, PartialEq, Eq, Structural)]
pub struct SysValue {
    pub raw: usize,
}

/// Status code returned by every native call, exactly the fixed set the
/// embedding ABI documents.
#[derive(Clone, Copy, Debug, PartialEq, Eq, Structural)]
pub enum SysStatus {
    Success,
    InvalidArg,
    ObjectExpected,
    StringExpected,
    NameExpected,
    FunctionExpected,
    NumberExpected,
    BooleanExpected,
    ArrayExpected,
    GenericFailure,
    PendingException,
    Cancelled,
    EscapeCalledTwice,
}

/// The runtime type tags reported by the "type of" native call.
#[derive(Clone, Copy, Debug, PartialEq, Eq, Structural)]
pub enum SysValueType {
    Undefined,
    Null,
    Boolean,
    Number,
    String,
    Symbol,
    Object,
    Function,
    External,
}

/// What kind of object a given object slot is.
#[derive(Clone, Copy, Debug, PartialEq, Eq, Structural)]
pub enum SysObjectClass {
    /// A plain object.
    Plain,
    /// An array; its elements live in the slot's element vector.
    Array,
    /// A raw byte buffer; its bytes live in the slot's byte vector.
    ArrayBuffer,
    /// A runtime-managed byte buffer; modeled exactly like `ArrayBuffer`
    /// apart from its class.
    Buffer,
    /// A host error object.
    ErrorObject,
    /// A host type-error object.
    TypeErrorObject,
    /// A host range-error object.
    RangeErrorObject,
}

/// One named property of an object slot.
pub struct SysProp {
    pub key: String,
    pub val: SysValue,
}

/// Payload of an object slot.
pub struct SysObject {
    pub class: SysObjectClass,
    pub bytes: Vec<u8>,
    pub props: Vec<SysProp>,
    pub elems: Vec<SysValue>,
}

/// One slot of the environment's store: a runtime value.
pub enum SysSlot {
    Undefined,
    Null,
    Boolean(bool),
    Number(i64),
    Text(String),
    Object(SysObject),
}

/// The environment: the per-call store of runtime values, plus the
/// runtime's pending-exception register.
pub struct HostEnv {
    pub slots: Vec<SysSlot>,
    pub pending: Option<SysValue>,
}

/// The raw argument vector of one callback invocation.
pub struct CallInfo {
    pub args: Vec<SysValue>,
}

/// Mathematical image of one named property.
pub struct PropVal {
    pub key: Seq<char>,
    pub val: SysValue,
}

/// Mathematical image of an object slot.
pub struct ObjVal {
    pub class: SysObjectClass,
    pub bytes: Seq<u8>,
    pub props: Seq<PropVal>,
    pub elems: Seq<SysValue>,
}

/// Mathematical image of a slot.
pub enum SlotVal {
    Undefined,
    Null,
    Boolean(bool),
    Number(i64),
    Text(Seq<char>),
    Object(ObjVal),
}

/// Mathematical image of an environment.
pub struct HostEnvView {
    pub slots: Seq<SlotVal>,
    pub pending: Option<SysValue>,
}

impl View for SysProp {
    type V = PropVal;

    open spec fn view(&self) -> PropVal {
        PropVal { key: self.key@, val: self.val }
    }
}

impl View for SysObject {
    type V = ObjVal;

    open spec fn view(&self) -> ObjVal {
        ObjVal {
            class: self.class,
            bytes: self.bytes@,
            props: self.props@.map_values(|p: SysProp| p@),
            elems: self.elems@,
        }
    }
}

impl View for SysSlot {
    type V = SlotVal;

    open spec fn view(&self) -> SlotVal {
        match self {
            SysSlot::Undefined => SlotVal::Undefined,
            SysSlot::Null => SlotVal::Null,
            SysSlot::Boolean(b) => SlotVal::Boolean(*b),
            SysSlot::Number(n) => SlotVal::Number(*n),
            SysSlot::Text(s) => SlotVal::Text(s@),
            SysSlot::Object(o) => SlotVal::Object(o@),
        }
    }
}

impl View for HostEnv {
    type V = HostEnvView;

    open spec fn view(&self) -> HostEnvView {
        HostEnvView { slots: self.slots@.map_values(|s: SysSlot| s@), pending: self.pending }
    }
}

impl View for CallInfo {
    type V = Seq<SysValue>;

    open spec fn view(&self) -> Seq<SysValue> {
        self.args@
    }
}

/// Handle of the singleton undefined value.
pub open spec fn undefined_handle() -> SysValue {
    SysValue { raw: 0 }
}

/// Handle of the singleton null value.
pub open spec fn null_handle() -> SysValue {
    SysValue { raw: 1 }
}

/// Handle of the singleton boolean with the given truth value.
pub open spec fn boolean_handle(b: bool) -> SysValue {
    if b {
        SysValue { raw: 3 }
    } else {
        SysValue { raw: 2 }
    }
}

/// Largest element count an array slot may reach.
pub open spec fn max_array_len() -> nat {
    0xFFFF_FFFF
}

/// All handles held inside an object payload point below `n`, its keys are
/// pairwise distinct, and its element count stays within the array bound.
pub open spec fn obj_closed(o: ObjVal, n: nat) -> bool {
    &&& forall|j: int| 0 <= j < o.props.len() ==> (#[trigger] o.props[j].val).raw < n
    &&& forall|j: int| 0 <= j < o.elems.len() ==> (#[trigger] o.elems[j]).raw < n
    &&& forall|j: int, k: int|
        0 <= j < o.props.len() && 0 <= k < o.props.len() && j != k ==> o.props[j].key
            != o.props[k].key
    &&& o.elems.len() <= max_array_len()
}

/// A slot is internally consistent with a store of `n` slots.
pub open spec fn slot_closed(s: SlotVal, n: nat) -> bool {
    match s {
        SlotVal::Object(o) => obj_closed(o, n),
        _ => true,
    }
}

impl HostEnvView {
    /// The handle points at a slot of this environment.
    pub open spec fn valid(self, v: SysValue) -> bool {
        v.raw < self.slots.len()
    }

    /// The slot the handle points at.
    pub open spec fn value_of(self, v: SysValue) -> SlotVal {
        self.slots[v.raw as int]
    }

    /// Environment invariant: the singleton slots sit at their fixed
    /// indices, every slot is internally consistent, and a pending
    /// exception, if any, is a valid handle.
    pub open spec fn wf(self) -> bool {
        &&& self.slots.len() >= 4
        &&& self.slots[0] == SlotVal::Undefined
        &&& self.slots[1] == SlotVal::Null
        &&& self.slots[2] == SlotVal::Boolean(false)
        &&& self.slots[3] == SlotVal::Boolean(true)
        &&& forall|i: int|
            0 <= i < self.slots.len() ==> slot_closed(#[trigger] self.slots[i], self.slots.len())
    }
}

/// Whatever one native call does to the store, an already-issued slot keeps
/// its runtime type and its primitive payload; only an object's
/// properties, elements and buffer contents may change, and a buffer
/// never changes its length.
pub open spec fn slot_compat(a: SlotVal, b: SlotVal) -> bool {
    match (a, b) {
        (SlotVal::Object(oa), SlotVal::Object(ob)) => oa.class == ob.class && oa.bytes.len()
            == ob.bytes.len(),
        _ => a == b,
    }
}

/// The store after a native call extends the store before it: no slot is
/// freed, and surviving slots stay compatible.
pub open spec fn env_extends(pre: HostEnvView, post: HostEnvView) -> bool {
    &&& pre.slots.len() <= post.slots.len()
    &&& forall|i: int|
        0 <= i < pre.slots.len() ==> slot_compat(#[trigger] pre.slots[i], post.slots[i])
}

impl HostEnv {
    /// Boot a fresh environment holding only the singleton values.
    pub fn new() -> (r: HostEnv)
        ensures
            r@.wf(),
            r@.slots.len() == 4,
            r@.pending is None,
    {
        let mut slots: Vec<SysSlot> = Vec::new();
        slots.push(SysSlot::Undefined);
        slots.push(SysSlot::Null);
        slots.push(SysSlot::Boolean(false));
        slots.push(SysSlot::Boolean(true));
        HostEnv { slots, pending: None }
    }
}

impl CallInfo {
    /// Package a raw argument vector, as the runtime does when it invokes a
    /// callback.
    pub fn new(args: Vec<SysValue>) -> (r: CallInfo)
        ensures
            r@ == args@,
    {
        CallInfo { args }
    }
}

/// The runtime type tag of a slot.
pub open spec fn type_of(s: SlotVal) -> SysValueType {
    match s {
        SlotVal::Undefined => SysValueType::Undefined,
        SlotVal::Null => SysValueType::Null,
        SlotVal::Boolean(_) => SysValueType::Boolean,
        SlotVal::Number(_) => SysValueType::Number,
        SlotVal::Text(_) => SysValueType::String,
        SlotVal::Object(_) => SysValueType::Object,
    }
}

/// The host language's boolean coercion of a slot (the model has no
/// not-a-number value, so every number but zero is truthy).
pub open spec fn truthy(s: SlotVal) -> bool {
    match s {
        SlotVal::Undefined => false,
        SlotVal::Null => false,
        SlotVal::Boolean(b) => b,
        SlotVal::Number(n) => n != 0,
        SlotVal::Text(t) => t.len() != 0,
        SlotVal::Object(_) => true,
    }
}

/// The model's numeric coercion of a slot: booleans become 0 or 1, numbers
/// stay themselves, and everything else becomes 0 (the host's not-a-number
/// and string-parsing outcomes are not modeled).
pub open spec fn number_form(s: SlotVal) -> i64 {
    match s {
        SlotVal::Undefined => 0,
        SlotVal::Null => 0,
        SlotVal::Boolean(b) => if b {
            1
        } else {
            0
        },
        SlotVal::Number(n) => n,
        SlotVal::Text(_) => 0,
        SlotVal::Object(_) => 0,
    }
}

/// The model's string coercion of a slot.  Every object renders as the
/// host's default object tag.
pub open spec fn string_form(s: SlotVal) -> Seq<char> {
    match s {
        SlotVal::Undefined => "undefined"@,
        SlotVal::Null => "null"@,
        SlotVal::Boolean(b) => if b {
            "true"@
        } else {
            "false"@
        },
        SlotVal::Number(n) => dec_int(n as int),
        SlotVal::Text(t) => t,
        SlotVal::Object(_) => "[object Object]"@,
    }
}

/// Strict equality of two handles under an environment: handle identity,
/// or equal primitive payloads of the same runtime type.
pub open spec fn strict_eq(e: HostEnvView, a: SysValue, b: SysValue) -> bool {
    a == b || match (e.value_of(a), e.value_of(b)) {
        (SlotVal::Undefined, SlotVal::Undefined) => true,
        (SlotVal::Null, SlotVal::Null) => true,
        (SlotVal::Boolean(x), SlotVal::Boolean(y)) => x == y,
        (SlotVal::Number(x), SlotVal::Number(y)) => x == y,
        (SlotVal::Text(x), SlotVal::Text(y)) => x == y,
        _ => false,
    }
}

/// The slot is an array object.
pub open spec fn slot_is_array(s: SlotVal) -> bool {
    s matches SlotVal::Object(o) && o.class == SysObjectClass::Array
}

/// The slot is a raw byte buffer object.
pub open spec fn slot_is_arraybuffer(s: SlotVal) -> bool {
    s matches SlotVal::Object(o) && o.class == SysObjectClass::ArrayBuffer
}

/// The slot is a runtime-managed byte buffer object.
pub open spec fn slot_is_buffer(s: SlotVal) -> bool {
    s matches SlotVal::Object(o) && o.class == SysObjectClass::Buffer
}

/// The slot is a host error object of any error class.
pub open spec fn slot_is_error(s: SlotVal) -> bool {
    s matches SlotVal::Object(o) && (o.class == SysObjectClass::ErrorObject || o.class
        == SysObjectClass::TypeErrorObject || o.class == SysObjectClass::RangeErrorObject)
}

/// One native call allocated exactly one new slot `s`, handed back as `r`,
/// and touched nothing else.
pub open spec fn allocated(pre: HostEnvView, post: HostEnvView, r: SysValue, s: SlotVal) -> bool {
    &&& post.slots == pre.slots.push(s)
    &&& post.pending == pre.pending
    &&& r.raw == pre.slots.len()
}

/// The payload of a freshly made host error object: its class, and a
/// "message" property holding the given string handle.
pub open spec fn error_obj(class: SysObjectClass, msgh: SysValue) -> ObjVal {
    ObjVal {
        class,
        bytes: Seq::empty(),
        props: seq![PropVal { key: "message"@, val: msgh }],
        elems: Seq::empty(),
    }
}

/// One native call allocated a message string slot and an error object slot
/// whose "message" property holds it, handing the error object back as `eh`.
pub open spec fn error_allocated(
    pre: HostEnvView,
    post: HostEnvView,
    class: SysObjectClass,
    msg: Seq<char>,
    eh: SysValue,
) -> bool {
    let msgh = SysValue { raw: pre.slots.len() as usize };
    &&& post.slots == pre.slots.push(SlotVal::Text(msg)).push(
        SlotVal::Object(error_obj(class, msgh)),
    )
    &&& eh.raw == pre.slots.len() + 1
}

/// A plain object with nothing in it yet.
pub open spec fn empty_obj() -> ObjVal {
    ObjVal {
        class: SysObjectClass::Plain,
        bytes: Seq::empty(),
        props: Seq::empty(),
        elems: Seq::empty(),
    }
}

/// Position of the property named `k`, or -1 when absent.
pub open spec fn prop_idx(props: Seq<PropVal>, k: Seq<char>) -> int
    decreases props.len(),
{
    if props.len() == 0 {
        -1
    } else if props[0].key == k {
        0
    } else {
        let r = prop_idx(props.drop_first(), k);
        if r == -1 {
            -1
        } else {
            r + 1
        }
    }
}

/// The value of the property named `k`, as the lookup native calls report
/// it: the stored handle, or the undefined singleton when absent.
pub open spec fn prop_get(props: Seq<PropVal>, k: Seq<char>) -> SysValue {
    if prop_idx(props, k) == -1 {
        undefined_handle()
    } else {
        props[prop_idx(props, k)].val
    }
}

/// What `prop_idx` says about the sequence it searched.
pub proof fn lemma_prop_idx(props: Seq<PropVal>, k: Seq<char>)
    ensures
        prop_idx(props, k) == -1 ==> forall|l: int|
            0 <= l < props.len() ==> (#[trigger] props[l]).key != k,
        prop_idx(props, k) != -1 ==> 0 <= prop_idx(props, k) < props.len() && props[prop_idx(
            props,
            k,
        )].key == k,
    decreases props.len(),
{
    if props.len() > 0 {
        lemma_prop_idx(props.drop_first(), k);
        if props[0].key != k {
            let r = prop_idx(props.drop_first(), k);
            if r == -1 {
                assert forall|l: int| 0 <= l < props.len() implies (#[trigger] props[l]).key
                    != k by {
                    if l > 0 {
                        assert(props.drop_first()[l - 1] == props[l]);
                    }
                }
            } else {
                assert(props.drop_first()[r] == props[r + 1]);
            }
        }
    }
}

/// A scan that saw no match before `i` and a match at `i` has found the
/// property's position.
pub proof fn lemma_prop_idx_at(props: Seq<PropVal>, k: Seq<char>, i: int)
    requires
        0 <= i < props.len(),
        props[i].key == k,
        forall|l: int| 0 <= l < i ==> (#[trigger] props[l]).key != k,
    ensures
        prop_idx(props, k) == i,
    decreases i,
{
    if i == 0 {
    } else {
        assert(props[0].key != k);
        assert forall|l: int| 0 <= l < i - 1 implies (#[trigger] props.drop_first()[l]).key
            != k by {
            assert(props.drop_first()[l] == props[l + 1]);
        }
        assert(props.drop_first()[i - 1] == props[i]);
        lemma_prop_idx_at(props.drop_first(), k, i - 1);
    }
}

/// A scan that saw no match anywhere has established absence.
pub proof fn lemma_prop_idx_none(props: Seq<PropVal>, k: Seq<char>)
    requires
        forall|l: int| 0 <= l < props.len() ==> (#[trigger] props[l]).key != k,
    ensures
        prop_idx(props, k) == -1,
    decreases props.len(),
{
    if props.len() > 0 {
        assert forall|l: int|
            0 <= l < props.drop_first().len() implies (#[trigger] props.drop_first()[l]).key
            != k by {
            assert(props.drop_first()[l] == props[l + 1]);
        }
        lemma_prop_idx_none(props.drop_first(), k);
    }
}

/// An object slot with its properties replaced.
pub open spec fn with_props(o: ObjVal, props: Seq<PropVal>) -> ObjVal {
    ObjVal { class: o.class, bytes: o.bytes, props, elems: o.elems }
}

/// An object slot with its elements replaced.
pub open spec fn with_elems(o: ObjVal, elems: Seq<SysValue>) -> ObjVal {
    ObjVal { class: o.class, bytes: o.bytes, props: o.props, elems }
}

/// The properties after a store of `val` under key `k`: overwrite in place
/// when present, append when absent.
pub open spec fn prop_set(props: Seq<PropVal>, k: Seq<char>, val: SysValue) -> Seq<PropVal> {
    if prop_idx(props, k) == -1 {
        props.push(PropVal { key: k, val })
    } else {
        props.update(prop_idx(props, k), PropVal { key: k, val })
    }
}

/// The properties after a delete of key `k`.
pub open spec fn prop_del(props: Seq<PropVal>, k: Seq<char>) -> Seq<PropVal> {
    if prop_idx(props, k) == -1 {
        props
    } else {
        props.remove(prop_idx(props, k))
    }
}

/// The elements after a store of `val` at `idx`: overwrite in place, or
/// extend with undefined singletons up to `idx` first.
pub open spec fn elem_set(elems: Seq<SysValue>, idx: nat, val: SysValue) -> Seq<SysValue> {
    if idx < elems.len() {
        elems.update(idx as int, val)
    } else {
        elems + Seq::new((idx - elems.len()) as nat, |i: int| undefined_handle()).push(val)
    }
}

proof fn lemma_slot_closed_mono(s: SlotVal, n: nat, m: nat)
    requires
        slot_closed(s, n),
        n <= m,
    ensures
        slot_closed(s, m),
{
}

/// Appends one slot to the store.  The shared allocation step behind every
/// value-creating native call.
fn push_slot(env: &mut HostEnv, slot: SysSlot) -> (r: SysValue)
    requires
        old(env)@.wf(),
        slot_closed(slot@, old(env)@.slots.len()),
    ensures
        final(env)@.wf(),
        env_extends(old(env)@, final(env)@),
        allocated(old(env)@, final(env)@, r, slot@),
        final(env)@.valid(r),
        final(env)@.value_of(r) == slot@,
{
    let r = SysValue { raw: env.slots.len() };
    let ghost pre = env@;
    let ghost sv = slot@;
    env.slots.push(slot);
    proof {
        assert(env@.slots =~= pre.slots.push(sv));
        assert forall|i: int| 0 <= i < env@.slots.len() implies slot_closed(
            #[trigger] env@.slots[i],
            env@.slots.len(),
        ) by {
            if i < pre.slots.len() {
                lemma_slot_closed_mono(pre.slots[i], pre.slots.len(), env@.slots.len());
            } else {
                lemma_slot_closed_mono(sv, pre.slots.len(), env@.slots.len());
            }
        }
    }
    r
}

/// Models `napi_get_undefined`: hands out the singleton undefined value.
pub fn napi_get_undefined(env: &HostEnv) -> (r: (SysStatus, SysValue))
    requires
        env@.wf(),
    ensures
        r.0 == SysStatus::Success,
        r.1 == undefined_handle(),
        env@.value_of(r.1) == SlotVal::Undefined,
{
    (SysStatus::Success, SysValue { raw: 0 })
}

/// Models `napi_get_null`: hands out the singleton null value.
pub fn napi_get_null(env: &HostEnv) -> (r: (SysStatus, SysValue))
    requires
        env@.wf(),
    ensures
        r.0 == SysStatus::Success,
        r.1 == null_handle(),
        env@.value_of(r.1) == SlotVal::Null,
{
    (SysStatus::Success, SysValue { raw: 1 })
}

/// Models `napi_get_boolean`: hands out the singleton boolean for `b`.
pub fn napi_get_boolean(env: &HostEnv, b: bool) -> (r: (SysStatus, SysValue))
    requires
        env@.wf(),
    ensures
        r.0 == SysStatus::Success,
        r.1 == boolean_handle(b),
        env@.value_of(r.1) == SlotVal::Boolean(b),
{
    if b {
        (SysStatus::Success, SysValue { raw: 3 })
    } else {
        (SysStatus::Success, SysValue { raw: 2 })
    }
}

/// Models `napi_typeof`: reports the runtime type tag of a value.
pub fn napi_typeof(env: &HostEnv, v: SysValue) -> (r: (SysStatus, SysValueType))
    requires
        env@.wf(),
    ensures
        env@.valid(v) ==> r.0 == SysStatus::Success && r.1 == type_of(env@.value_of(v)),
        !env@.valid(v) ==> r.0 == SysStatus::InvalidArg,
{
    if v.raw >= env.slots.len() {
        return (SysStatus::InvalidArg, SysValueType::Undefined);
    }
    let t = match &env.slots[v.raw] {
        SysSlot::Undefined => SysValueType::Undefined,
        SysSlot::Null => SysValueType::Null,
        SysSlot::Boolean(_) => SysValueType::Boolean,
        SysSlot::Number(_) => SysValueType::Number,
        SysSlot::Text(_) => SysValueType::String,
        SysSlot::Object(_) => SysValueType::Object,
    };
    (SysStatus::Success, t)
}

/// Models `napi_strict_equals`: handle identity, or equal primitives.
pub fn napi_strict_equals(env: &HostEnv, a: SysValue, b: SysValue) -> (r: (SysStatus, bool))
    requires
        env@.wf(),
    ensures
        env@.valid(a) && env@.valid(b) ==> r.0 == SysStatus::Success && r.1 == strict_eq(
            env@,
            a,
            b,
        ),
        !(env@.valid(a) && env@.valid(b)) ==> r.0 == SysStatus::InvalidArg,
{
    if a.raw >= env.slots.len() || b.raw >= env.slots.len() {
        return (SysStatus::InvalidArg, false);
    }
    if a.raw == b.raw {
        return (SysStatus::Success, true);
    }
    let eq = match (&env.slots[a.raw], &env.slots[b.raw]) {
        (SysSlot::Undefined, SysSlot::Undefined) => true,
        (SysSlot::Null, SysSlot::Null) => true,
        (SysSlot::Boolean(x), SysSlot::Boolean(y)) => *x == *y,
        (SysSlot::Number(x), SysSlot::Number(y)) => *x == *y,
        (SysSlot::Text(x), SysSlot::Text(y)) => *x == *y,
        _ => false,
    };
    (SysStatus::Success, eq)
}

/// Models `napi_create_int32`: allocates a number slot.
pub fn napi_create_int32(env: &mut HostEnv, value: i32) -> (r: (SysStatus, SysValue))
    requires
        old(env)@.wf(),
    ensures
        final(env)@.wf(),
        env_extends(old(env)@, final(env)@),
        r.0 == SysStatus::Success,
        allocated(old(env)@, final(env)@, r.1, SlotVal::Number(value as i64)),
        final(env)@.valid(r.1),
        final(env)@.value_of(r.1) == SlotVal::Number(value as i64),
{
    let v = push_slot(env, SysSlot::Number(value as i64));
    (SysStatus::Success, v)
}

/// Models `napi_create_int64`: allocates a number slot.
pub fn napi_create_int64(env: &mut HostEnv, value: i64) -> (r: (SysStatus, SysValue))
    requires
        old(env)@.wf(),
    ensures
        final(env)@.wf(),
        env_extends(old(env)@, final(env)@),
        r.0 == SysStatus::Success,
        allocated(old(env)@, final(env)@, r.1, SlotVal::Number(value)),
        final(env)@.valid(r.1),
        final(env)@.value_of(r.1) == SlotVal::Number(value),
{
    let v = push_slot(env, SysSlot::Number(value));
    (SysStatus::Success, v)
}

/// Models `napi_get_value_int32`: reads a number slot's payload, truncated
/// to the low 32 bits as the host documents.
pub fn napi_get_value_int32(env: &HostEnv, v: SysValue) -> (r: (SysStatus, i32))
    requires
        env@.wf(),
    ensures
        !env@.valid(v) ==> r.0 == SysStatus::InvalidArg,
        env@.valid(v) ==> match env@.value_of(v) {
            SlotVal::Number(n) => r.0 == SysStatus::Success && r.1 == n as i32,
            _ => r.0 == SysStatus::NumberExpected,
        },
{
    if v.raw >= env.slots.len() {
        return (SysStatus::InvalidArg, 0);
    }
    match &env.slots[v.raw] {
        SysSlot::Number(n) => (SysStatus::Success, #[verifier::truncate] (*n as i32)),
        _ => (SysStatus::NumberExpected, 0),
    }
}

/// Models `napi_get_value_int64`: reads a number slot's payload.
pub fn napi_get_value_int64(env: &HostEnv, v: SysValue) -> (r: (SysStatus, i64))
    requires
        env@.wf(),
    ensures
        !env@.valid(v) ==> r.0 == SysStatus::InvalidArg,
        env@.valid(v) ==> match env@.value_of(v) {
            SlotVal::Number(n) => r.0 == SysStatus::Success && r.1 == n,
            _ => r.0 == SysStatus::NumberExpected,
        },
{
    if v.raw >= env.slots.len() {
        return (SysStatus::InvalidArg, 0);
    }
    match &env.slots[v.raw] {
        SysSlot::Number(n) => (SysStatus::Success, *n),
        _ => (SysStatus::NumberExpected, 0),
    }
}

/// Models `napi_get_value_bool`: reads a boolean slot's payload.
pub fn napi_get_value_bool(env: &HostEnv, v: SysValue) -> (r: (SysStatus, bool))
    requires
        env@.wf(),
    ensures
        !env@.valid(v) ==> r.0 == SysStatus::InvalidArg,
        env@.valid(v) ==> match env@.value_of(v) {
            SlotVal::Boolean(b) => r.0 == SysStatus::Success && r.1 == b,
            _ => r.0 == SysStatus::BooleanExpected,
        },
{
    if v.raw >= env.slots.len() {
        return (SysStatus::InvalidArg, false);
    }
    match &env.slots[v.raw] {
        SysSlot::Boolean(b) => (SysStatus::Success, *b),
        _ => (SysStatus::BooleanExpected, false),
    }
}

/// Models `napi_create_string_utf8`: allocates a string slot from UTF-8
/// input.
pub fn napi_create_string_utf8(env: &mut HostEnv, value: &str) -> (r: (SysStatus, SysValue))
    requires
        old(env)@.wf(),
    ensures
        final(env)@.wf(),
        env_extends(old(env)@, final(env)@),
        r.0 == SysStatus::Success,
        allocated(old(env)@, final(env)@, r.1, SlotVal::Text(value@)),
        final(env)@.valid(r.1),
        final(env)@.value_of(r.1) == SlotVal::Text(value@),
{
    let v = push_slot(env, SysSlot::Text(String::from_str(value)));
    (SysStatus::Success, v)
}

/// Models `napi_get_value_string_utf8`: reads a string slot's text.  The
/// real call fills a caller-supplied byte buffer; the model hands the text
/// back as an owned string.
pub fn napi_get_value_string_utf8(env: &HostEnv, v: SysValue) -> (r: (SysStatus, String))
    requires
        env@.wf(),
    ensures
        !env@.valid(v) ==> r.0 == SysStatus::InvalidArg,
        env@.valid(v) ==> match env@.value_of(v) {
            SlotVal::Text(t) => r.0 == SysStatus::Success && r.1@ == t,
            _ => r.0 == SysStatus::StringExpected,
        },
{
    if v.raw >= env.slots.len() {
        return (SysStatus::InvalidArg, String::new());
    }
    match &env.slots[v.raw] {
        SysSlot::Text(t) => (SysStatus::Success, t.clone()),
        _ => (SysStatus::StringExpected, String::new()),
    }
}

/// Models `napi_is_array`.
pub fn napi_is_array(env: &HostEnv, v: SysValue) -> (r: (SysStatus, bool))
    requires
        env@.wf(),
    ensures
        !env@.valid(v) ==> r.0 == SysStatus::InvalidArg,
        env@.valid(v) ==> r.0 == SysStatus::Success && r.1 == slot_is_array(env@.value_of(v)),
{
    if v.raw >= env.slots.len() {
        return (SysStatus::InvalidArg, false);
    }
    match &env.slots[v.raw] {
        SysSlot::Object(o) => (SysStatus::Success, matches!(o.class, SysObjectClass::Array)),
        _ => (SysStatus::Success, false),
    }
}

/// Models `napi_is_arraybuffer`.
pub fn napi_is_arraybuffer(env: &HostEnv, v: SysValue) -> (r: (SysStatus, bool))
    requires
        env@.wf(),
    ensures
        !env@.valid(v) ==> r.0 == SysStatus::InvalidArg,
        env@.valid(v) ==> r.0 == SysStatus::Success && r.1 == slot_is_arraybuffer(
            env@.value_of(v),
        ),
{
    if v.raw >= env.slots.len() {
        return (SysStatus::InvalidArg, false);
    }
    match &env.slots[v.raw] {
        SysSlot::Object(o) => (SysStatus::Success, matches!(o.class, SysObjectClass::ArrayBuffer)),
        _ => (SysStatus::Success, false),
    }
}

/// Models `napi_is_buffer`.
pub fn napi_is_buffer(env: &HostEnv, v: SysValue) -> (r: (SysStatus, bool))
    requires
        env@.wf(),
    ensures
        !env@.valid(v) ==> r.0 == SysStatus::InvalidArg,
        env@.valid(v) ==> r.0 == SysStatus::Success && r.1 == slot_is_buffer(env@.value_of(v)),
{
    if v.raw >= env.slots.len() {
        return (SysStatus::InvalidArg, false);
    }
    match &env.slots[v.raw] {
        SysSlot::Object(o) => (SysStatus::Success, matches!(o.class, SysObjectClass::Buffer)),
        _ => (SysStatus::Success, false),
    }
}

/// Models `napi_is_error`.
pub fn napi_is_error(env: &HostEnv, v: SysValue) -> (r: (SysStatus, bool))
    requires
        env@.wf(),
    ensures
        !env@.valid(v) ==> r.0 == SysStatus::InvalidArg,
        env@.valid(v) ==> r.0 == SysStatus::Success && r.1 == slot_is_error(env@.value_of(v)),
{
    if v.raw >= env.slots.len() {
        return (SysStatus::InvalidArg, false);
    }
    match &env.slots[v.raw] {
        SysSlot::Object(o) => (
            SysStatus::Success,
            matches!(
                o.class,
                SysObjectClass::ErrorObject
                    | SysObjectClass::TypeErrorObject
                    | SysObjectClass::RangeErrorObject
            ),
        ),
        _ => (SysStatus::Success, false),
    }
}

/// Models `napi_is_typedarray`: the model populates no typed-array views,
/// so every valid handle reports false.
pub fn napi_is_typedarray(env: &HostEnv, v: SysValue) -> (r: (SysStatus, bool))
    requires
        env@.wf(),
    ensures
        !env@.valid(v) ==> r.0 == SysStatus::InvalidArg,
        env@.valid(v) ==> r.0 == SysStatus::Success && r.1 == false,
{
    if v.raw >= env.slots.len() {
        return (SysStatus::InvalidArg, false);
    }
    (SysStatus::Success, false)
}

/// Models `napi_is_dataview`: the model populates no data views, so every
/// valid handle reports false.
pub fn napi_is_dataview(env: &HostEnv, v: SysValue) -> (r: (SysStatus, bool))
    requires
        env@.wf(),
    ensures
        !env@.valid(v) ==> r.0 == SysStatus::InvalidArg,
        env@.valid(v) ==> r.0 == SysStatus::Success && r.1 == false,
{
    if v.raw >= env.slots.len() {
        return (SysStatus::InvalidArg, false);
    }
    (SysStatus::Success, false)
}

/// Models `napi_is_exception_pending`.
pub fn napi_is_exception_pending(env: &HostEnv) -> (r: (SysStatus, bool))
    requires
        env@.wf(),
    ensures
        r.0 == SysStatus::Success,
        r.1 == (env@.pending is Some),
{
    (SysStatus::Success, env.pending.is_some())
}

/// Models `napi_get_and_clear_last_exception`: hands back the pending
/// exception, if any, and clears the runtime's register.
pub fn napi_get_and_clear_last_exception(env: &mut HostEnv) -> (r: (SysStatus, Option<SysValue>))
    requires
        old(env)@.wf(),
    ensures
        final(env)@.wf(),
        env_extends(old(env)@, final(env)@),
        r.0 == SysStatus::Success,
        r.1 == old(env)@.pending,
        final(env)@.slots == old(env)@.slots,
        final(env)@.pending is None,
{
    let r = env.pending;
    env.pending = None;
    (SysStatus::Success, r)
}

/// Models `napi_get_last_error_info`: this model records no extended error
/// message, so the message field is always absent.
pub fn napi_get_last_error_info(env: &HostEnv) -> (r: (SysStatus, Option<String>))
    requires
        env@.wf(),
    ensures
        r.0 == SysStatus::Success,
        r.1 is None,
{
    (SysStatus::Success, None)
}

/// Models `napi_throw`: makes the given value the runtime's pending
/// exception.
pub fn napi_throw(env: &mut HostEnv, v: SysValue) -> (r: SysStatus)
    requires
        old(env)@.wf(),
    ensures
        final(env)@.wf(),
        env_extends(old(env)@, final(env)@),
        final(env)@.slots == old(env)@.slots,
        !old(env)@.valid(v) ==> r == SysStatus::InvalidArg && final(env)@.pending == old(env)@.pending,
        old(env)@.valid(v) ==> r == SysStatus::Success && final(env)@.pending == Some(v),
{
    if v.raw >= env.slots.len() {
        return SysStatus::InvalidArg;
    }
    env.pending = Some(v);
    SysStatus::Success
}

/// Allocates a message string slot plus an error object slot pointing at
/// it.  The shared step behind error construction and `napi_throw_error`.
fn push_error(env: &mut HostEnv, class: SysObjectClass, msg: String) -> (r: SysValue)
    requires
        old(env)@.wf(),
    ensures
        final(env)@.wf(),
        env_extends(old(env)@, final(env)@),
        error_allocated(old(env)@, final(env)@, class, msg@, r),
        final(env)@.pending == old(env)@.pending,
        final(env)@.valid(r),
        final(env)@.value_of(r) == SlotVal::Object(
            error_obj(class, SysValue { raw: old(env)@.slots.len() as usize }),
        ),
{
    let ghost pre = env@;
    let ghost msgv = msg@;
    let msgh = push_slot(env, SysSlot::Text(msg));
    let key = String::from_str("message");
    let mut props: Vec<SysProp> = Vec::new();
    props.push(SysProp { key, val: msgh });
    let obj = SysObject { class, bytes: Vec::new(), props, elems: Vec::new() };
    proof {
        assert(obj@.props =~= seq![PropVal { key: "message"@, val: msgh }]);
        assert(obj@ =~= error_obj(class, msgh));
    }
    let r = push_slot(env, SysSlot::Object(obj));
    proof {
        assert(env@.slots =~= pre.slots.push(SlotVal::Text(msgv)).push(
            SlotVal::Object(error_obj(class, msgh)),
        ));
    }
    r
}

/// Models `napi_create_error`: allocates an error object whose "message"
/// property is the given string value.
pub fn napi_create_error(env: &mut HostEnv, msg: SysValue) -> (r: (SysStatus, SysValue))
    requires
        old(env)@.wf(),
    ensures
        final(env)@.wf(),
        env_extends(old(env)@, final(env)@),
        !old(env)@.valid(msg) ==> r.0 == SysStatus::InvalidArg && final(env)@ == old(env)@,
        old(env)@.valid(msg) ==> match old(env)@.value_of(msg) {
            SlotVal::Text(_) => r.0 == SysStatus::Success && allocated(
                old(env)@,
                final(env)@,
                r.1,
                SlotVal::Object(error_obj(SysObjectClass::ErrorObject, msg)),
            ),
            _ => r.0 == SysStatus::StringExpected && final(env)@ == old(env)@,
        },
{
    create_error_with_class(env, SysObjectClass::ErrorObject, msg)
}

/// Models `napi_create_type_error`.
pub fn napi_create_type_error(env: &mut HostEnv, msg: SysValue) -> (r: (SysStatus, SysValue))
    requires
        old(env)@.wf(),
    ensures
        final(env)@.wf(),
        env_extends(old(env)@, final(env)@),
        !old(env)@.valid(msg) ==> r.0 == SysStatus::InvalidArg && final(env)@ == old(env)@,
        old(env)@.valid(msg) ==> match old(env)@.value_of(msg) {
            SlotVal::Text(_) => r.0 == SysStatus::Success && allocated(
                old(env)@,
                final(env)@,
                r.1,
                SlotVal::Object(error_obj(SysObjectClass::TypeErrorObject, msg)),
            ),
            _ => r.0 == SysStatus::StringExpected && final(env)@ == old(env)@,
        },
{
    create_error_with_class(env, SysObjectClass::TypeErrorObject, msg)
}

/// Models `napi_create_range_error`.
pub fn napi_create_range_error(env: &mut HostEnv, msg: SysValue) -> (r: (SysStatus, SysValue))
    requires
        old(env)@.wf(),
    ensures
        final(env)@.wf(),
        env_extends(old(env)@, final(env)@),
        !old(env)@.valid(msg) ==> r.0 == SysStatus::InvalidArg && final(env)@ == old(env)@,
        old(env)@.valid(msg) ==> match old(env)@.value_of(msg) {
            SlotVal::Text(_) => r.0 == SysStatus::Success && allocated(
                old(env)@,
                final(env)@,
                r.1,
                SlotVal::Object(error_obj(SysObjectClass::RangeErrorObject, msg)),
            ),
            _ => r.0 == SysStatus::StringExpected && final(env)@ == old(env)@,
        },
{
    create_error_with_class(env, SysObjectClass::RangeErrorObject, msg)
}

/// Shared body of the three error-constructing native calls.
fn create_error_with_class(env: &mut HostEnv, class: SysObjectClass, msg: SysValue) -> (r: (
    SysStatus,
    SysValue,
))
    requires
        old(env)@.wf(),
    ensures
        final(env)@.wf(),
        env_extends(old(env)@, final(env)@),
        !old(env)@.valid(msg) ==> r.0 == SysStatus::InvalidArg && final(env)@ == old(env)@,
        old(env)@.valid(msg) ==> match old(env)@.value_of(msg) {
            SlotVal::Text(_) => r.0 == SysStatus::Success && allocated(
                old(env)@,
                final(env)@,
                r.1,
                SlotVal::Object(error_obj(class, msg)),
            ),
            _ => r.0 == SysStatus::StringExpected && final(env)@ == old(env)@,
        },
{
    if msg.raw >= env.slots.len() {
        return (SysStatus::InvalidArg, SysValue { raw: 0 });
    }
    let is_text = matches!(&env.slots[msg.raw], SysSlot::Text(_));
    if !is_text {
        return (SysStatus::StringExpected, SysValue { raw: 0 });
    }
    let key = String::from_str("message");
    let mut props: Vec<SysProp> = Vec::new();
    props.push(SysProp { key, val: msg });
    let obj = SysObject { class, bytes: Vec::new(), props, elems: Vec::new() };
    proof {
        assert(obj@.props =~= seq![PropVal { key: "message"@, val: msg }]);
        assert(obj@ =~= error_obj(class, msg));
    }
    let r = push_slot(env, SysSlot::Object(obj));
    (SysStatus::Success, r)
}

/// Models `napi_throw_error`: allocates a plain error object carrying the
/// given message text and makes it the pending exception.
pub fn napi_throw_error(env: &mut HostEnv, msg: &str) -> (r: SysStatus)
    requires
        old(env)@.wf(),
    ensures
        final(env)@.wf(),
        env_extends(old(env)@, final(env)@),
        r == SysStatus::Success,
        exists|eh: SysValue|
            {
                &&& error_allocated(old(env)@, final(env)@, SysObjectClass::ErrorObject, msg@, eh)
                &&& final(env)@.pending == Some(eh)
            },
{
    let eh = push_error(env, SysObjectClass::ErrorObject, String::from_str(msg));
    env.pending = Some(eh);
    proof {
        assert(error_allocated(old(env)@, env@, SysObjectClass::ErrorObject, msg@, eh));
        assert(env@.pending == Some(eh));
    }
    SysStatus::Success
}

/// Models `napi_get_cb_info`: reports the call's actual argument count and
/// fills a vector of `cap` handles with the leading arguments, padding with
/// the undefined singleton when the call supplied fewer.
pub fn napi_get_cb_info(env: &HostEnv, info: &CallInfo, cap: usize) -> (r: (
    SysStatus,
    usize,
    Vec<SysValue>,
))
    requires
        env@.wf(),
    ensures
        r.0 == SysStatus::Success,
        r.1 == info@.len(),
        r.2@.len() == cap,
        forall|i: int| 0 <= i < cap && i < info@.len() ==> r.2@[i] == info@[i],
        forall|i: int| info@.len() <= i < cap ==> r.2@[i] == undefined_handle(),
{
    let mut argv: Vec<SysValue> = Vec::new();
    let mut i: usize = 0;
    while i < cap
        invariant
            i <= cap,
            argv@.len() == i,
            forall|j: int| 0 <= j < i && j < info@.len() ==> argv@[j] == info@[j],
            forall|j: int| info@.len() <= j < i ==> argv@[j] == undefined_handle(),
        decreases cap - i,
    {
        if i < info.args.len() {
            argv.push(info.args[i]);
        } else {
            argv.push(SysValue { raw: 0 });
        }
        i += 1;
    }
    (SysStatus::Success, info.args.len(), argv)
}


/// An array object slot holding the given elements.
pub open spec fn array_obj(elems: Seq<SysValue>) -> ObjVal {
    ObjVal { class: SysObjectClass::Array, bytes: Seq::empty(), props: Seq::empty(), elems }
}

/// A byte-buffer object slot of the given class holding the given bytes.
pub open spec fn buffer_obj(class: SysObjectClass, bytes: Seq<u8>) -> ObjVal {
    ObjVal { class, bytes, props: Seq::empty(), elems: Seq::empty() }
}

/// Handle of the slot a one-slot allocation hands out.
pub open spec fn first_alloc_handle(pre: HostEnvView) -> SysValue {
    SysValue { raw: pre.slots.len() as usize }
}

/// Handle of the second slot a two-slot allocation hands out.
pub open spec fn second_alloc_handle(pre: HostEnvView) -> SysValue {
    SysValue { raw: (pre.slots.len() + 1) as usize }
}

/// Renders the model's string coercion of one slot.
fn render_string_form(slot: &SysSlot) -> (s: String)
    ensures
        s@ == string_form(slot@),
{
    match slot {
        SysSlot::Undefined => String::from_str("undefined"),
        SysSlot::Null => String::from_str("null"),
        SysSlot::Boolean(b) => if *b {
            String::from_str("true")
        } else {
            String::from_str("false")
        },
        SysSlot::Number(n) => i64_to_dec(*n),
        SysSlot::Text(t) => t.clone(),
        SysSlot::Object(_) => String::from_str("[object Object]"),
    }
}

/// Removes an object payload from its slot, leaving undefined behind until
/// the caller stores the reworked payload back.
fn take_object(env: &mut HostEnv, i: usize) -> (o: SysObject)
    requires
        old(env)@.wf(),
        i < old(env)@.slots.len(),
        old(env)@.slots[i as int] is Object,
    ensures
        final(env)@.wf(),
        final(env)@.slots == old(env)@.slots.update(i as int, SlotVal::Undefined),
        final(env)@.pending == old(env)@.pending,
        SlotVal::Object(o@) == old(env)@.slots[i as int],
        i >= 4,
        final(env)@.slots.len() == old(env)@.slots.len(),
{
    let mut tmp = SysSlot::Undefined;
    let slot_ref = &mut env.slots[i];
    core::mem::swap(slot_ref, &mut tmp);
    proof {
        assert(env@.slots =~= old(env)@.slots.update(i as int, SlotVal::Undefined));
        assert forall|j: int| 0 <= j < env@.slots.len() implies slot_closed(
            #[trigger] env@.slots[j],
            env@.slots.len(),
        ) by {
            if j != i {
                assert(env@.slots[j] == old(env)@.slots[j]);
            }
        }
    }
    match tmp {
        SysSlot::Object(o) => o,
        _ => {
            proof {
                assert(false);
            }
            SysObject {
                class: SysObjectClass::Plain,
                bytes: Vec::new(),
                props: Vec::new(),
                elems: Vec::new(),
            }
        },
    }
}

/// Stores a reworked object payload back into its slot.
fn put_object(env: &mut HostEnv, i: usize, o: SysObject)
    requires
        old(env)@.wf(),
        4 <= i < old(env)@.slots.len(),
        obj_closed(o@, old(env)@.slots.len()),
    ensures
        final(env)@.wf(),
        final(env)@.slots == old(env)@.slots.update(i as int, SlotVal::Object(o@)),
        final(env)@.pending == old(env)@.pending,
{
    let ghost ov = o@;
    let mut tmp = SysSlot::Object(o);
    let slot_ref = &mut env.slots[i];
    core::mem::swap(slot_ref, &mut tmp);
    proof {
        assert(env@.slots =~= old(env)@.slots.update(i as int, SlotVal::Object(ov)));
        assert forall|j: int| 0 <= j < env@.slots.len() implies slot_closed(
            #[trigger] env@.slots[j],
            env@.slots.len(),
        ) by {
            if j != i {
                assert(env@.slots[j] == old(env)@.slots[j]);
            }
        }
    }
}

/// Models `napi_coerce_to_bool`: hands out the singleton boolean for the
/// host language's boolean coercion of the value.
pub fn napi_coerce_to_bool(env: &HostEnv, v: SysValue) -> (r: (SysStatus, SysValue))
    requires
        env@.wf(),
    ensures
        !env@.valid(v) ==> r.0 == SysStatus::InvalidArg,
        env@.valid(v) ==> {
            &&& r.0 == SysStatus::Success
            &&& r.1 == boolean_handle(truthy(env@.value_of(v)))
            &&& env@.value_of(r.1) == SlotVal::Boolean(truthy(env@.value_of(v)))
        },
{
    if v.raw >= env.slots.len() {
        return (SysStatus::InvalidArg, SysValue { raw: 0 });
    }
    let b = match &env.slots[v.raw] {
        SysSlot::Undefined => false,
        SysSlot::Null => false,
        SysSlot::Boolean(b) => *b,
        SysSlot::Number(n) => *n != 0,
        SysSlot::Text(t) => !t.as_str().is_empty(),
        SysSlot::Object(_) => true,
    };
    napi_get_boolean(env, b)
}

/// Models `napi_coerce_to_number`: allocates a number slot holding the
/// model's numeric coercion of the value.
pub fn napi_coerce_to_number(env: &mut HostEnv, v: SysValue) -> (r: (SysStatus, SysValue))
    requires
        old(env)@.wf(),
    ensures
        final(env)@.wf(),
        env_extends(old(env)@, final(env)@),
        !old(env)@.valid(v) ==> r.0 == SysStatus::InvalidArg && final(env)@ == old(env)@,
        old(env)@.valid(v) ==> {
            &&& r.0 == SysStatus::Success
            &&& allocated(
                old(env)@,
                final(env)@,
                r.1,
                SlotVal::Number(number_form(old(env)@.value_of(v))),
            )
        },
{
    if v.raw >= env.slots.len() {
        return (SysStatus::InvalidArg, SysValue { raw: 0 });
    }
    let n = match &env.slots[v.raw] {
        SysSlot::Undefined => 0,
        SysSlot::Null => 0,
        SysSlot::Boolean(b) => if *b {
            1
        } else {
            0
        },
        SysSlot::Number(n) => *n,
        SysSlot::Text(_) => 0,
        SysSlot::Object(_) => 0,
    };
    let h = push_slot(env, SysSlot::Number(n));
    (SysStatus::Success, h)
}

/// Models `napi_coerce_to_string`: allocates a string slot holding the
/// model's string coercion of the value.
pub fn napi_coerce_to_string(env: &mut HostEnv, v: SysValue) -> (r: (SysStatus, SysValue))
    requires
        old(env)@.wf(),
    ensures
        final(env)@.wf(),
        env_extends(old(env)@, final(env)@),
        !old(env)@.valid(v) ==> r.0 == SysStatus::InvalidArg && final(env)@ == old(env)@,
        old(env)@.valid(v) ==> {
            &&& r.0 == SysStatus::Success
            &&& allocated(
                old(env)@,
                final(env)@,
                r.1,
                SlotVal::Text(string_form(old(env)@.value_of(v))),
            )
        },
{
    if v.raw >= env.slots.len() {
        return (SysStatus::InvalidArg, SysValue { raw: 0 });
    }
    let s = render_string_form(&env.slots[v.raw]);
    let h = push_slot(env, SysSlot::Text(s));
    (SysStatus::Success, h)
}

/// Models `napi_coerce_to_object`.  An object coerces to itself; a
/// primitive boolean, number or string coerces to a fresh wrapper object
/// (whose own properties the model leaves empty); undefined and null make
/// the runtime throw, reported as a pending type error.
pub fn napi_coerce_to_object(env: &mut HostEnv, v: SysValue) -> (r: (SysStatus, SysValue))
    requires
        old(env)@.wf(),
    ensures
        final(env)@.wf(),
        env_extends(old(env)@, final(env)@),
        !old(env)@.valid(v) ==> r.0 == SysStatus::InvalidArg && final(env)@ == old(env)@,
        old(env)@.valid(v) ==> match old(env)@.value_of(v) {
            SlotVal::Object(_) => r.0 == SysStatus::Success && r.1 == v && final(env)@ == old(env)@,
            SlotVal::Boolean(_) | SlotVal::Number(_) | SlotVal::Text(_) => r.0
                == SysStatus::Success && allocated(
                old(env)@,
                final(env)@,
                r.1,
                SlotVal::Object(empty_obj()),
            ),
            SlotVal::Undefined | SlotVal::Null => {
                &&& r.0 == SysStatus::PendingException
                &&& error_allocated(
                    old(env)@,
                    final(env)@,
                    SysObjectClass::TypeErrorObject,
                    "Cannot convert undefined or null to object"@,
                    second_alloc_handle(old(env)@),
                )
                &&& final(env)@.pending == Some(second_alloc_handle(old(env)@))
            },
        },
{
    if v.raw >= env.slots.len() {
        return (SysStatus::InvalidArg, SysValue { raw: 0 });
    }
    let convertible = match &env.slots[v.raw] {
        SysSlot::Undefined => false,
        SysSlot::Null => false,
        _ => true,
    };
    if !convertible {
        let eh = push_error(
            env,
            SysObjectClass::TypeErrorObject,
            String::from_str("Cannot convert undefined or null to object"),
        );
        env.pending = Some(eh);
        return (SysStatus::PendingException, SysValue { raw: 0 });
    }
    let already = matches!(&env.slots[v.raw], SysSlot::Object(_));
    if already {
        return (SysStatus::Success, v);
    }
    let obj = SysObject {
        class: SysObjectClass::Plain,
        bytes: Vec::new(),
        props: Vec::new(),
        elems: Vec::new(),
    };
    proof {
        assert(obj@.props =~= Seq::<PropVal>::empty());
        assert(obj@.bytes =~= Seq::<u8>::empty());
        assert(obj@.elems =~= Seq::<SysValue>::empty());
        assert(obj@ =~= empty_obj());
    }
    let h = push_slot(env, SysSlot::Object(obj));
    (SysStatus::Success, h)
}

/// Models `napi_create_object`: allocates an empty plain object.
pub fn napi_create_object(env: &mut HostEnv) -> (r: (SysStatus, SysValue))
    requires
        old(env)@.wf(),
    ensures
        final(env)@.wf(),
        env_extends(old(env)@, final(env)@),
        r.0 == SysStatus::Success,
        allocated(old(env)@, final(env)@, r.1, SlotVal::Object(empty_obj())),
{
    let obj = SysObject {
        class: SysObjectClass::Plain,
        bytes: Vec::new(),
        props: Vec::new(),
        elems: Vec::new(),
    };
    proof {
        assert(obj@.props =~= Seq::<PropVal>::empty());
        assert(obj@.bytes =~= Seq::<u8>::empty());
        assert(obj@.elems =~= Seq::<SysValue>::empty());
        assert(obj@ =~= empty_obj());
    }
    let h = push_slot(env, SysSlot::Object(obj));
    (SysStatus::Success, h)
}

/// Models `napi_get_prototype`.  The model keeps no prototype chains, so
/// every object reports the null singleton as its prototype.
pub fn napi_get_prototype(env: &HostEnv, v: SysValue) -> (r: (SysStatus, SysValue))
    requires
        env@.wf(),
    ensures
        !env@.valid(v) ==> r.0 == SysStatus::InvalidArg,
        env@.valid(v) ==> match env@.value_of(v) {
            SlotVal::Object(_) => r.0 == SysStatus::Success && r.1 == null_handle(),
            _ => r.0 == SysStatus::ObjectExpected,
        },
{
    if v.raw >= env.slots.len() {
        return (SysStatus::InvalidArg, SysValue { raw: 0 });
    }
    match &env.slots[v.raw] {
        SysSlot::Object(_) => (SysStatus::Success, SysValue { raw: 1 }),
        _ => (SysStatus::ObjectExpected, SysValue { raw: 0 }),
    }
}

/// Scans a property vector for a key, reporting its index.
fn find_prop(props: &Vec<SysProp>, k: &String) -> (r: Option<usize>)
    ensures
        ({
            let pv = props@.map_values(|p: SysProp| p@);
            match r {
                Some(j) => prop_idx(pv, k@) == j as int && j < props@.len(),
                None => prop_idx(pv, k@) == -1,
            }
        }),
{
    let ghost pv = props@.map_values(|p: SysProp| p@);
    let mut i: usize = 0;
    while i < props.len()
        invariant
            i <= props@.len(),
            pv == props@.map_values(|p: SysProp| p@),
            forall|l: int| 0 <= l < i ==> (#[trigger] pv[l]).key != k@,
        decreases props@.len() - i,
    {
        if props[i].key == *k {
            proof {
                lemma_prop_idx_at(pv, k@, i as int);
            }
            return Some(i);
        }
        i += 1;
    }
    proof {
        lemma_prop_idx_none(pv, k@);
    }
    None
}

/// Models `napi_get_property`: reads the property named by the string
/// coercion of `key`, reporting the undefined singleton when absent.
pub fn napi_get_property(env: &HostEnv, obj: SysValue, key: SysValue) -> (r: (SysStatus, SysValue))
    requires
        env@.wf(),
    ensures
        !(env@.valid(obj) && env@.valid(key)) ==> r.0 == SysStatus::InvalidArg,
        env@.valid(obj) && env@.valid(key) ==> match env@.value_of(obj) {
            SlotVal::Object(o) => r.0 == SysStatus::Success && r.1 == prop_get(
                o.props,
                string_form(env@.value_of(key)),
            ),
            _ => r.0 == SysStatus::ObjectExpected,
        },
{
    if obj.raw >= env.slots.len() || key.raw >= env.slots.len() {
        return (SysStatus::InvalidArg, SysValue { raw: 0 });
    }
    let k = render_string_form(&env.slots[key.raw]);
    match &env.slots[obj.raw] {
        SysSlot::Object(o) => {
            proof {
                lemma_prop_idx(o@.props, k@);
            }
            match find_prop(&o.props, &k) {
                Some(j) => (SysStatus::Success, o.props[j].val),
                None => (SysStatus::Success, SysValue { raw: 0 }),
            }
        },
        _ => (SysStatus::ObjectExpected, SysValue { raw: 0 }),
    }
}

/// Models `napi_has_property`.
pub fn napi_has_property(env: &HostEnv, obj: SysValue, key: SysValue) -> (r: (SysStatus, bool))
    requires
        env@.wf(),
    ensures
        !(env@.valid(obj) && env@.valid(key)) ==> r.0 == SysStatus::InvalidArg,
        env@.valid(obj) && env@.valid(key) ==> match env@.value_of(obj) {
            SlotVal::Object(o) => r.0 == SysStatus::Success && r.1 == (prop_idx(
                o.props,
                string_form(env@.value_of(key)),
            ) != -1),
            _ => r.0 == SysStatus::ObjectExpected,
        },
{
    if obj.raw >= env.slots.len() || key.raw >= env.slots.len() {
        return (SysStatus::InvalidArg, false);
    }
    let k = render_string_form(&env.slots[key.raw]);
    match &env.slots[obj.raw] {
        SysSlot::Object(o) => {
            match find_prop(&o.props, &k) {
                Some(_) => (SysStatus::Success, true),
                None => (SysStatus::Success, false),
            }
        },
        _ => (SysStatus::ObjectExpected, false),
    }
}

/// Models `napi_has_own_property`.  With no prototype chains in the model,
/// this coincides with `napi_has_property`.
pub fn napi_has_own_property(env: &HostEnv, obj: SysValue, key: SysValue) -> (r: (SysStatus, bool))
    requires
        env@.wf(),
    ensures
        !(env@.valid(obj) && env@.valid(key)) ==> r.0 == SysStatus::InvalidArg,
        env@.valid(obj) && env@.valid(key) ==> match env@.value_of(obj) {
            SlotVal::Object(o) => r.0 == SysStatus::Success && r.1 == (prop_idx(
                o.props,
                string_form(env@.value_of(key)),
            ) != -1),
            _ => r.0 == SysStatus::ObjectExpected,
        },
{
    napi_has_property(env, obj, key)
}

/// Models `napi_set_property`: stores `val` under the property named by
/// the string coercion of `key`, overwriting in place or appending.
pub fn napi_set_property(env: &mut HostEnv, obj: SysValue, key: SysValue, val: SysValue) -> (r:
    SysStatus)
    requires
        old(env)@.wf(),
    ensures
        final(env)@.wf(),
        env_extends(old(env)@, final(env)@),
        final(env)@.pending == old(env)@.pending,
        !(old(env)@.valid(obj) && old(env)@.valid(key) && old(env)@.valid(val)) ==> r
            == SysStatus::InvalidArg && final(env)@ == old(env)@,
        old(env)@.valid(obj) && old(env)@.valid(key) && old(env)@.valid(val) ==> match old(env)@.value_of(obj) {
            SlotVal::Object(o) => r == SysStatus::Success && final(env)@.slots == old(env)@.slots.update(
                obj.raw as int,
                SlotVal::Object(
                    with_props(
                        o,
                        prop_set(o.props, string_form(old(env)@.value_of(key)), val),
                    ),
                ),
            ),
            _ => r == SysStatus::ObjectExpected && final(env)@ == old(env)@,
        },
{
    if obj.raw >= env.slots.len() || key.raw >= env.slots.len() || val.raw >= env.slots.len() {
        return SysStatus::InvalidArg;
    }
    let is_obj = matches!(&env.slots[obj.raw], SysSlot::Object(_));
    if !is_obj {
        return SysStatus::ObjectExpected;
    }
    let ghost pre = env@;
    let ghost ov = pre.value_of(obj)->Object_0;
    let ghost kv = string_form(pre.value_of(key));
    let k = render_string_form(&env.slots[key.raw]);
    let mut o = take_object(env, obj.raw);
    proof {
        lemma_prop_idx(ov.props, kv);
    }
    match find_prop(&o.props, &k) {
        Some(j) => {
            o.props[j] = SysProp { key: k, val };
            proof {
                assert(o@.props =~= prop_set(ov.props, kv, val));
            }
        },
        None => {
            o.props.push(SysProp { key: k, val });
            proof {
                assert(o@.props =~= prop_set(ov.props, kv, val));
            }
        },
    }
    proof {
        assert(obj_closed(ov, pre.slots.len()));
        assert forall|l: int| 0 <= l < o@.props.len() implies (#[trigger] o@.props[l]).val.raw
            < env@.slots.len() by {}
        assert forall|j2: int, k2: int|
            0 <= j2 < o@.props.len() && 0 <= k2 < o@.props.len() && j2 != k2 implies o@.props[
            j2
        ].key != o@.props[k2].key by {}
    }
    put_object(env, obj.raw, o);
    proof {
        assert(env@.slots =~= pre.slots.update(
            obj.raw as int,
            SlotVal::Object(with_props(ov, prop_set(ov.props, kv, val))),
        ));
    }
    SysStatus::Success
}

/// Models `napi_delete_property`: removes the property named by the string
/// coercion of `key`.  Deletion reports true whether or not the property
/// existed, as the host language's delete does for ordinary properties.
pub fn napi_delete_property(env: &mut HostEnv, obj: SysValue, key: SysValue) -> (r: (
    SysStatus,
    bool,
))
    requires
        old(env)@.wf(),
    ensures
        final(env)@.wf(),
        env_extends(old(env)@, final(env)@),
        final(env)@.pending == old(env)@.pending,
        !(old(env)@.valid(obj) && old(env)@.valid(key)) ==> r.0 == SysStatus::InvalidArg && final(env)@ == old(env)@,
        old(env)@.valid(obj) && old(env)@.valid(key) ==> match old(env)@.value_of(obj) {
            SlotVal::Object(o) => r.0 == SysStatus::Success && r.1 == true && final(env)@.slots
                == old(env)@.slots.update(
                obj.raw as int,
                SlotVal::Object(
                    with_props(o, prop_del(o.props, string_form(old(env)@.value_of(key)))),
                ),
            ),
            _ => r.0 == SysStatus::ObjectExpected && final(env)@ == old(env)@,
        },
{
    if obj.raw >= env.slots.len() || key.raw >= env.slots.len() {
        return (SysStatus::InvalidArg, false);
    }
    let is_obj = matches!(&env.slots[obj.raw], SysSlot::Object(_));
    if !is_obj {
        return (SysStatus::ObjectExpected, false);
    }
    let ghost pre = env@;
    let ghost ov = pre.value_of(obj)->Object_0;
    let ghost kv = string_form(pre.value_of(key));
    let k = render_string_form(&env.slots[key.raw]);
    let mut o = take_object(env, obj.raw);
    proof {
        lemma_prop_idx(ov.props, kv);
    }
    match find_prop(&o.props, &k) {
        Some(j) => {
            o.props.remove(j);
            proof {
                assert(o@.props =~= prop_del(ov.props, kv));
            }
        },
        None => {
            proof {
                assert(o@.props =~= prop_del(ov.props, kv));
            }
        },
    }
    proof {
        assert(obj_closed(ov, pre.slots.len()));
        assert forall|l: int| 0 <= l < o@.props.len() implies (#[trigger] o@.props[l]).val.raw
            < env@.slots.len() by {}
        assert forall|j2: int, k2: int|
            0 <= j2 < o@.props.len() && 0 <= k2 < o@.props.len() && j2 != k2 implies o@.props[
            j2
        ].key != o@.props[k2].key by {}
    }
    put_object(env, obj.raw, o);
    proof {
        assert(env@.slots =~= pre.slots.update(
            obj.raw as int,
            SlotVal::Object(with_props(ov, prop_del(ov.props, kv))),
        ));
    }
    (SysStatus::Success, true)
}


/// Models `napi_set_element`: stores `val` at element `idx`, padding the
/// gap with undefined singletons when the index lies beyond the current
/// length.  The model caps element storage at its array bound, so the
/// largest representable index is refused.
pub fn napi_set_element(env: &mut HostEnv, obj: SysValue, idx: u32, val: SysValue) -> (r: SysStatus)
    requires
        old(env)@.wf(),
    ensures
        final(env)@.wf(),
        env_extends(old(env)@, final(env)@),
        final(env)@.pending == old(env)@.pending,
        !(old(env)@.valid(obj) && old(env)@.valid(val)) ==> r == SysStatus::InvalidArg && final(env)@
            == old(env)@,
        old(env)@.valid(obj) && old(env)@.valid(val) ==> match old(env)@.value_of(obj) {
            SlotVal::Object(o) => {
                if idx as nat + 1 > max_array_len() {
                    r == SysStatus::GenericFailure && final(env)@ == old(env)@
                } else {
                    r == SysStatus::Success && final(env)@.slots == old(env)@.slots.update(
                        obj.raw as int,
                        SlotVal::Object(with_elems(o, elem_set(o.elems, idx as nat, val))),
                    )
                }
            },
            _ => r == SysStatus::ObjectExpected && final(env)@ == old(env)@,
        },
{
    if obj.raw >= env.slots.len() || val.raw >= env.slots.len() {
        return SysStatus::InvalidArg;
    }
    let is_obj = matches!(&env.slots[obj.raw], SysSlot::Object(_));
    if !is_obj {
        return SysStatus::ObjectExpected;
    }
    if idx == 0xFFFF_FFFFu32 {
        return SysStatus::GenericFailure;
    }
    let ghost pre = env@;
    let ghost ov = pre.value_of(obj)->Object_0;
    let mut o = take_object(env, obj.raw);
    let i = idx as usize;
    if i < o.elems.len() {
        o.elems[i] = val;
        proof {
            assert(o@.elems =~= elem_set(ov.elems, idx as nat, val));
        }
    } else {
        let ghost base = o@.elems;
        while o.elems.len() < i
            invariant
                base.len() <= o@.elems.len() <= i,
                o@.elems =~= base + Seq::new(
                    (o@.elems.len() - base.len()) as nat,
                    |x: int| undefined_handle(),
                ),
                o@.props == ov.props,
                o@.class == ov.class,
                o@.bytes == ov.bytes,
                i < 0xFFFF_FFFFusize,
            decreases i - o@.elems.len(),
        {
            o.elems.push(SysValue { raw: 0 });
            proof {
                assert(o@.elems =~= base + Seq::new(
                    (o@.elems.len() - base.len()) as nat,
                    |x: int| undefined_handle(),
                ));
            }
        }
        o.elems.push(val);
        proof {
            assert(o@.elems =~= elem_set(ov.elems, idx as nat, val));
        }
    }
    proof {
        assert(obj_closed(ov, pre.slots.len()));
        assert(obj_closed(o@, pre.slots.len()));
    }
    put_object(env, obj.raw, o);
    proof {
        assert(env@.slots =~= pre.slots.update(
            obj.raw as int,
            SlotVal::Object(with_elems(ov, elem_set(ov.elems, idx as nat, val))),
        ));
    }
    SysStatus::Success
}

/// Models `napi_get_element`: reads element `idx`, reporting the undefined
/// singleton beyond the current length.
pub fn napi_get_element(env: &HostEnv, obj: SysValue, idx: u32) -> (r: (SysStatus, SysValue))
    requires
        env@.wf(),
    ensures
        !env@.valid(obj) ==> r.0 == SysStatus::InvalidArg,
        env@.valid(obj) ==> match env@.value_of(obj) {
            SlotVal::Object(o) => r.0 == SysStatus::Success && r.1 == (if idx < o.elems.len() {
                o.elems[idx as int]
            } else {
                undefined_handle()
            }),
            _ => r.0 == SysStatus::ObjectExpected,
        },
{
    if obj.raw >= env.slots.len() {
        return (SysStatus::InvalidArg, SysValue { raw: 0 });
    }
    match &env.slots[obj.raw] {
        SysSlot::Object(o) => {
            let i = idx as usize;
            if i < o.elems.len() {
                (SysStatus::Success, o.elems[i])
            } else {
                (SysStatus::Success, SysValue { raw: 0 })
            }
        },
        _ => (SysStatus::ObjectExpected, SysValue { raw: 0 }),
    }
}

/// Models `napi_has_element`.  An element holding the undefined singleton
/// counts as absent, matching what deletion leaves behind.
pub fn napi_has_element(env: &HostEnv, obj: SysValue, idx: u32) -> (r: (SysStatus, bool))
    requires
        env@.wf(),
    ensures
        !env@.valid(obj) ==> r.0 == SysStatus::InvalidArg,
        env@.valid(obj) ==> match env@.value_of(obj) {
            SlotVal::Object(o) => r.0 == SysStatus::Success && r.1 == (idx < o.elems.len()
                && o.elems[idx as int] != undefined_handle()),
            _ => r.0 == SysStatus::ObjectExpected,
        },
{
    if obj.raw >= env.slots.len() {
        return (SysStatus::InvalidArg, false);
    }
    match &env.slots[obj.raw] {
        SysSlot::Object(o) => {
            let i = idx as usize;
            if i < o.elems.len() {
                (SysStatus::Success, o.elems[i].raw != 0)
            } else {
                (SysStatus::Success, false)
            }
        },
        _ => (SysStatus::ObjectExpected, false),
    }
}

/// Models `napi_delete_element`: overwrites the element with the undefined
/// singleton, leaving the length unchanged, and reports true as the host
/// language's delete does.
pub fn napi_delete_element(env: &mut HostEnv, obj: SysValue, idx: u32) -> (r: (SysStatus, bool))
    requires
        old(env)@.wf(),
    ensures
        final(env)@.wf(),
        env_extends(old(env)@, final(env)@),
        final(env)@.pending == old(env)@.pending,
        !old(env)@.valid(obj) ==> r.0 == SysStatus::InvalidArg && final(env)@ == old(env)@,
        old(env)@.valid(obj) ==> match old(env)@.value_of(obj) {
            SlotVal::Object(o) => r.0 == SysStatus::Success && r.1 == true && final(env)@.slots
                == old(env)@.slots.update(
                obj.raw as int,
                SlotVal::Object(
                    with_elems(
                        o,
                        if idx < o.elems.len() {
                            o.elems.update(idx as int, undefined_handle())
                        } else {
                            o.elems
                        },
                    ),
                ),
            ),
            _ => r.0 == SysStatus::ObjectExpected && final(env)@ == old(env)@,
        },
{
    if obj.raw >= env.slots.len() {
        return (SysStatus::InvalidArg, false);
    }
    let is_obj = matches!(&env.slots[obj.raw], SysSlot::Object(_));
    if !is_obj {
        return (SysStatus::ObjectExpected, false);
    }
    let ghost pre = env@;
    let ghost ov = pre.value_of(obj)->Object_0;
    let mut o = take_object(env, obj.raw);
    let i = idx as usize;
    if i < o.elems.len() {
        o.elems[i] = SysValue { raw: 0 };
    }
    proof {
        assert(obj_closed(ov, pre.slots.len()));
        assert(obj_closed(o@, pre.slots.len()));
    }
    put_object(env, obj.raw, o);
    proof {
        if idx < ov.elems.len() {
            assert(env@.slots =~= pre.slots.update(
                obj.raw as int,
                SlotVal::Object(with_elems(ov, ov.elems.update(idx as int, undefined_handle()))),
            ));
        } else {
            assert(env@.slots =~= pre.slots.update(
                obj.raw as int,
                SlotVal::Object(with_elems(ov, ov.elems)),
            ));
        }
    }
    (SysStatus::Success, true)
}

/// Models `napi_create_array`: allocates an empty array object.
pub fn napi_create_array(env: &mut HostEnv) -> (r: (SysStatus, SysValue))
    requires
        old(env)@.wf(),
    ensures
        final(env)@.wf(),
        env_extends(old(env)@, final(env)@),
        r.0 == SysStatus::Success,
        allocated(old(env)@, final(env)@, r.1, SlotVal::Object(array_obj(Seq::empty()))),
{
    let obj = SysObject {
        class: SysObjectClass::Array,
        bytes: Vec::new(),
        props: Vec::new(),
        elems: Vec::new(),
    };
    proof {
        assert(obj@.props =~= Seq::<PropVal>::empty());
        assert(obj@.bytes =~= Seq::<u8>::empty());
        assert(obj@.elems =~= Seq::<SysValue>::empty());
        assert(obj@ =~= array_obj(Seq::empty()));
    }
    let h = push_slot(env, SysSlot::Object(obj));
    (SysStatus::Success, h)
}

/// Models `napi_create_array_with_length`: allocates an array whose `len`
/// elements all hold the undefined singleton.  A length beyond the model's
/// array bound is refused.
pub fn napi_create_array_with_length(env: &mut HostEnv, len: usize) -> (r: (SysStatus, SysValue))
    requires
        old(env)@.wf(),
    ensures
        final(env)@.wf(),
        env_extends(old(env)@, final(env)@),
        len > max_array_len() ==> r.0 == SysStatus::InvalidArg && final(env)@ == old(env)@,
        len <= max_array_len() ==> r.0 == SysStatus::Success && allocated(
            old(env)@,
            final(env)@,
            r.1,
            SlotVal::Object(array_obj(Seq::new(len as nat, |i: int| undefined_handle()))),
        ),
{
    if len > 0xFFFF_FFFFusize {
        return (SysStatus::InvalidArg, SysValue { raw: 0 });
    }
    let elems: Vec<SysValue> = vec![SysValue { raw: 0 }; len];
    let obj = SysObject { class: SysObjectClass::Array, bytes: Vec::new(), props: Vec::new(), elems };
    proof {
        assert(obj@.props =~= Seq::<PropVal>::empty());
        assert(obj@.bytes =~= Seq::<u8>::empty());
        assert(obj@.elems =~= Seq::new(len as nat, |i: int| undefined_handle()));
        assert(obj@ =~= array_obj(Seq::new(len as nat, |i: int| undefined_handle())));
    }
    let h = push_slot(env, SysSlot::Object(obj));
    (SysStatus::Success, h)
}

/// Models `napi_get_array_length`.
pub fn napi_get_array_length(env: &HostEnv, v: SysValue) -> (r: (SysStatus, u32))
    requires
        env@.wf(),
    ensures
        !env@.valid(v) ==> r.0 == SysStatus::InvalidArg,
        env@.valid(v) ==> match env@.value_of(v) {
            SlotVal::Object(o) => {
                if o.class == SysObjectClass::Array {
                    r.0 == SysStatus::Success && r.1 == o.elems.len()
                } else {
                    r.0 == SysStatus::ArrayExpected
                }
            },
            _ => r.0 == SysStatus::ArrayExpected,
        },
{
    if v.raw >= env.slots.len() {
        return (SysStatus::InvalidArg, 0);
    }
    match &env.slots[v.raw] {
        SysSlot::Object(o) => {
            if matches!(o.class, SysObjectClass::Array) {
                proof {
                    assert(slot_closed(env@.value_of(v), env@.slots.len()));
                }
                (SysStatus::Success, o.elems.len() as u32)
            } else {
                (SysStatus::ArrayExpected, 0)
            }
        },
        _ => (SysStatus::ArrayExpected, 0),
    }
}

/// Models `napi_create_arraybuffer`: allocates a zero-filled raw byte
/// buffer of the given length.
pub fn napi_create_arraybuffer(env: &mut HostEnv, len: usize) -> (r: (SysStatus, SysValue))
    requires
        old(env)@.wf(),
    ensures
        final(env)@.wf(),
        env_extends(old(env)@, final(env)@),
        r.0 == SysStatus::Success,
        allocated(
            old(env)@,
            final(env)@,
            r.1,
            SlotVal::Object(
                buffer_obj(SysObjectClass::ArrayBuffer, Seq::new(len as nat, |i: int| 0u8)),
            ),
        ),
{
    let bytes: Vec<u8> = vec![0u8; len];
    let obj = SysObject {
        class: SysObjectClass::ArrayBuffer,
        bytes,
        props: Vec::new(),
        elems: Vec::new(),
    };
    proof {
        assert(obj@.props =~= Seq::<PropVal>::empty());
        assert(obj@.bytes =~= Seq::new(len as nat, |i: int| 0u8));
        assert(obj@.elems =~= Seq::<SysValue>::empty());
        assert(obj@ =~= buffer_obj(SysObjectClass::ArrayBuffer, Seq::new(len as nat, |i: int| 0u8)));
    }
    let h = push_slot(env, SysSlot::Object(obj));
    (SysStatus::Success, h)
}

/// Models `napi_create_buffer`: allocates a zero-filled runtime-managed
/// byte buffer of the given length.
pub fn napi_create_buffer(env: &mut HostEnv, len: usize) -> (r: (SysStatus, SysValue))
    requires
        old(env)@.wf(),
    ensures
        final(env)@.wf(),
        env_extends(old(env)@, final(env)@),
        r.0 == SysStatus::Success,
        allocated(
            old(env)@,
            final(env)@,
            r.1,
            SlotVal::Object(buffer_obj(SysObjectClass::Buffer, Seq::new(len as nat, |i: int| 0u8))),
        ),
{
    let bytes: Vec<u8> = vec![0u8; len];
    let obj = SysObject {
        class: SysObjectClass::Buffer,
        bytes,
        props: Vec::new(),
        elems: Vec::new(),
    };
    proof {
        assert(obj@.props =~= Seq::<PropVal>::empty());
        assert(obj@.bytes =~= Seq::new(len as nat, |i: int| 0u8));
        assert(obj@.elems =~= Seq::<SysValue>::empty());
        assert(obj@ =~= buffer_obj(SysObjectClass::Buffer, Seq::new(len as nat, |i: int| 0u8)));
    }
    let h = push_slot(env, SysSlot::Object(obj));
    (SysStatus::Success, h)
}

/// Models `napi_get_arraybuffer_info`: reports a raw byte buffer's length.
pub fn napi_get_arraybuffer_info(env: &HostEnv, v: SysValue) -> (r: (SysStatus, usize))
    requires
        env@.wf(),
    ensures
        !env@.valid(v) ==> r.0 == SysStatus::InvalidArg,
        env@.valid(v) ==> match env@.value_of(v) {
            SlotVal::Object(o) => {
                if o.class == SysObjectClass::ArrayBuffer {
                    r.0 == SysStatus::Success && r.1 == o.bytes.len()
                } else {
                    r.0 == SysStatus::InvalidArg
                }
            },
            _ => r.0 == SysStatus::InvalidArg,
        },
{
    if v.raw >= env.slots.len() {
        return (SysStatus::InvalidArg, 0);
    }
    match &env.slots[v.raw] {
        SysSlot::Object(o) => {
            if matches!(o.class, SysObjectClass::ArrayBuffer) {
                (SysStatus::Success, o.bytes.len())
            } else {
                (SysStatus::InvalidArg, 0)
            }
        },
        _ => (SysStatus::InvalidArg, 0),
    }
}

/// Models `napi_get_buffer_info`: reports a runtime-managed byte buffer's
/// length.
pub fn napi_get_buffer_info(env: &HostEnv, v: SysValue) -> (r: (SysStatus, usize))
    requires
        env@.wf(),
    ensures
        !env@.valid(v) ==> r.0 == SysStatus::InvalidArg,
        env@.valid(v) ==> match env@.value_of(v) {
            SlotVal::Object(o) => {
                if o.class == SysObjectClass::Buffer {
                    r.0 == SysStatus::Success && r.1 == o.bytes.len()
                } else {
                    r.0 == SysStatus::InvalidArg
                }
            },
            _ => r.0 == SysStatus::InvalidArg,
        },
{
    if v.raw >= env.slots.len() {
        return (SysStatus::InvalidArg, 0);
    }
    match &env.slots[v.raw] {
        SysSlot::Object(o) => {
            if matches!(o.class, SysObjectClass::Buffer) {
                (SysStatus::Success, o.bytes.len())
            } else {
                (SysStatus::InvalidArg, 0)
            }
        },
        _ => (SysStatus::InvalidArg, 0),
    }
}


/// The store contents after `napi_get_property_names`: one string slot per
/// property key, then an array object listing those strings in property
/// order.
pub open spec fn names_result(pre: HostEnvView, o: ObjVal) -> Seq<SlotVal> {
    pre.slots + Seq::new(o.props.len(), |i: int| SlotVal::Text(o.props[i].key)).push(
        SlotVal::Object(
            array_obj(
                Seq::new(o.props.len(), |i: int| SysValue { raw: (pre.slots.len() + i) as usize }),
            ),
        ),
    )
}

/// Models `napi_get_property_names`: allocates an array of the object's
/// own property names, in insertion order.  Element indices are not
/// reported as names (a model simplification).
pub fn napi_get_property_names(env: &mut HostEnv, obj: SysValue) -> (r: (SysStatus, SysValue))
    requires
        old(env)@.wf(),
    ensures
        final(env)@.wf(),
        env_extends(old(env)@, final(env)@),
        final(env)@.pending == old(env)@.pending,
        !old(env)@.valid(obj) ==> r.0 == SysStatus::InvalidArg && final(env)@ == old(env)@,
        old(env)@.valid(obj) ==> match old(env)@.value_of(obj) {
            SlotVal::Object(o) => {
                if o.props.len() > max_array_len() {
                    r.0 == SysStatus::GenericFailure && final(env)@ == old(env)@
                } else {
                    &&& r.0 == SysStatus::Success
                    &&& final(env)@.slots == names_result(old(env)@, o)
                    &&& r.1.raw == old(env)@.slots.len() + o.props.len()
                }
            },
            _ => r.0 == SysStatus::ObjectExpected && final(env)@ == old(env)@,
        },
{
    if obj.raw >= env.slots.len() {
        return (SysStatus::InvalidArg, SysValue { raw: 0 });
    }
    let ghost pre = env@;
    let mut keys: Vec<String> = Vec::new();
    match &env.slots[obj.raw] {
        SysSlot::Object(o) => {
            if o.props.len() > 0xFFFF_FFFFusize {
                return (SysStatus::GenericFailure, SysValue { raw: 0 });
            }
            let mut i: usize = 0;
            while i < o.props.len()
                invariant
                    i <= o.props@.len(),
                    keys@.len() == i,
                    forall|l: int| 0 <= l < i ==> (#[trigger] keys@[l])@ == o.props@[l]@.key,
                decreases o.props@.len() - i,
            {
                keys.push(o.props[i].key.clone());
                i += 1;
            }
        },
        _ => {
            return (SysStatus::ObjectExpected, SysValue { raw: 0 });
        },
    }
    let ghost ov = pre.value_of(obj)->Object_0;
    let n = keys.len();
    let mut handles: Vec<SysValue> = Vec::new();
    let mut i: usize = 0;
    while i < n
        invariant
            env@.wf(),
            i <= n,
            n == ov.props.len(),
            keys@.len() == n,
            forall|l: int| 0 <= l < n ==> (#[trigger] keys@[l])@ == ov.props[l].key,
            env@.slots =~= pre.slots + Seq::new(i as nat, |l: int| SlotVal::Text(ov.props[l].key)),
            env@.pending == pre.pending,
            handles@.len() == i,
            forall|l: int|
                0 <= l < i ==> (#[trigger] handles@[l]) == (SysValue {
                    raw: (pre.slots.len() + l) as usize,
                }),
        decreases n - i,
    {
        let h = push_slot(env, SysSlot::Text(keys[i].clone()));
        handles.push(h);
        proof {
            assert(env@.slots =~= pre.slots + Seq::new(
                (i + 1) as nat,
                |l: int| SlotVal::Text(ov.props[l].key),
            ));
        }
        i += 1;
    }
    let obj_out = SysObject {
        class: SysObjectClass::Array,
        bytes: Vec::new(),
        props: Vec::new(),
        elems: handles,
    };
    proof {
        assert(obj_out@.props =~= Seq::<PropVal>::empty());
        assert(obj_out@.bytes =~= Seq::<u8>::empty());
        assert(obj_out@.elems =~= Seq::new(
            ov.props.len(),
            |l: int| SysValue { raw: (pre.slots.len() + l) as usize },
        ));
        assert(obj_out@ =~= array_obj(
            Seq::new(ov.props.len(), |l: int| SysValue { raw: (pre.slots.len() + l) as usize }),
        ));
    }
    let r = push_slot(env, SysSlot::Object(obj_out));
    proof {
        assert(env@.slots =~= names_result(pre, ov));
    }
    (SysStatus::Success, r)
}


/// Models `napi_create_string_latin1`: allocates a string slot from
/// Latin-1 bytes, each byte its own code point.
pub fn napi_create_string_latin1(env: &mut HostEnv, value: &[u8]) -> (r: (SysStatus, SysValue))
    requires
        old(env)@.wf(),
    ensures
        final(env)@.wf(),
        env_extends(old(env)@, final(env)@),
        r.0 == SysStatus::Success,
        allocated(old(env)@, final(env)@, r.1, SlotVal::Text(latin1_decode(value@))),
        final(env)@.valid(r.1),
        final(env)@.value_of(r.1) == SlotVal::Text(latin1_decode(value@)),
{
    let v = push_slot(env, SysSlot::Text(decode_latin1(value)));
    (SysStatus::Success, v)
}

/// Models `napi_create_string_utf16`: allocates a string slot from UTF-16
/// code units, combining well-formed surrogate pairs and replacing
/// unpaired surrogates.
pub fn napi_create_string_utf16(env: &mut HostEnv, value: &[u16]) -> (r: (SysStatus, SysValue))
    requires
        old(env)@.wf(),
    ensures
        final(env)@.wf(),
        env_extends(old(env)@, final(env)@),
        r.0 == SysStatus::Success,
        allocated(old(env)@, final(env)@, r.1, SlotVal::Text(utf16_decode(value@))),
        final(env)@.valid(r.1),
        final(env)@.value_of(r.1) == SlotVal::Text(utf16_decode(value@)),
{
    let v = push_slot(env, SysSlot::Text(decode_utf16(value)));
    (SysStatus::Success, v)
}

/// Models `napi_get_value_string_latin1`: reads a string slot's text as
/// Latin-1 bytes, substituting a question mark for characters beyond the
/// Latin-1 range.
pub fn napi_get_value_string_latin1(env: &HostEnv, v: SysValue) -> (r: (SysStatus, Vec<u8>))
    requires
        env@.wf(),
    ensures
        !env@.valid(v) ==> r.0 == SysStatus::InvalidArg,
        env@.valid(v) ==> match env@.value_of(v) {
            SlotVal::Text(t) => r.0 == SysStatus::Success && r.1@ == latin1_encode(t),
            _ => r.0 == SysStatus::StringExpected,
        },
{
    if v.raw >= env.slots.len() {
        return (SysStatus::InvalidArg, Vec::new());
    }
    match &env.slots[v.raw] {
        SysSlot::Text(t) => (SysStatus::Success, encode_latin1(t.as_str())),
        _ => (SysStatus::StringExpected, Vec::new()),
    }
}

/// Models `napi_get_value_string_utf16`: reads a string slot's text as
/// UTF-16 code units.
pub fn napi_get_value_string_utf16(env: &HostEnv, v: SysValue) -> (r: (SysStatus, Vec<u16>))
    requires
        env@.wf(),
    ensures
        !env@.valid(v) ==> r.0 == SysStatus::InvalidArg,
        env@.valid(v) ==> match env@.value_of(v) {
            SlotVal::Text(t) => r.0 == SysStatus::Success && r.1@ == utf16_encode(t),
            _ => r.0 == SysStatus::StringExpected,
        },
{
    if v.raw >= env.slots.len() {
        return (SysStatus::InvalidArg, Vec::new());
    }
    match &env.slots[v.raw] {
        SysSlot::Text(t) => (SysStatus::Success, encode_utf16(t.as_str())),
        _ => (SysStatus::StringExpected, Vec::new()),
    }
}


/// Models reading a byte buffer's contents through the data pointer the
/// buffer-info native calls hand out.
pub fn napi_buffer_read(env: &HostEnv, v: SysValue) -> (r: (SysStatus, Vec<u8>))
    requires
        env@.wf(),
    ensures
        !env@.valid(v) ==> r.0 == SysStatus::InvalidArg,
        env@.valid(v) ==> match env@.value_of(v) {
            SlotVal::Object(o) => {
                if o.class == SysObjectClass::ArrayBuffer || o.class == SysObjectClass::Buffer {
                    r.0 == SysStatus::Success && r.1@ == o.bytes
                } else {
                    r.0 == SysStatus::InvalidArg
                }
            },
            _ => r.0 == SysStatus::InvalidArg,
        },
{
    if v.raw >= env.slots.len() {
        return (SysStatus::InvalidArg, Vec::new());
    }
    match &env.slots[v.raw] {
        SysSlot::Object(o) => {
            if matches!(o.class, SysObjectClass::ArrayBuffer | SysObjectClass::Buffer) {
                let mut out: Vec<u8> = Vec::new();
                let mut i: usize = 0;
                while i < o.bytes.len()
                    invariant
                        i <= o.bytes@.len(),
                        out@ =~= o.bytes@.take(i as int),
                    decreases o.bytes@.len() - i,
                {
                    out.push(o.bytes[i]);
                    proof {
                        assert(out@ =~= o.bytes@.take(i + 1));
                    }
                    i += 1;
                }
                proof {
                    assert(o.bytes@.take(o.bytes@.len() as int) =~= o.bytes@);
                }
                (SysStatus::Success, out)
            } else {
                (SysStatus::InvalidArg, Vec::new())
            }
        },
        _ => (SysStatus::InvalidArg, Vec::new()),
    }
}

/// Models writing one byte of a byte buffer through the data pointer the
/// buffer-info native calls hand out.
pub fn napi_buffer_write_byte(env: &mut HostEnv, v: SysValue, index: usize, byte: u8) -> (r:
    SysStatus)
    requires
        old(env)@.wf(),
    ensures
        final(env)@.wf(),
        env_extends(old(env)@, final(env)@),
        final(env)@.pending == old(env)@.pending,
        !old(env)@.valid(v) ==> r == SysStatus::InvalidArg && final(env)@ == old(env)@,
        old(env)@.valid(v) ==> match old(env)@.value_of(v) {
            SlotVal::Object(o) => {
                if (o.class == SysObjectClass::ArrayBuffer || o.class == SysObjectClass::Buffer)
                    && index < o.bytes.len() {
                    r == SysStatus::Success && final(env)@.slots == old(env)@.slots.update(
                        v.raw as int,
                        SlotVal::Object(
                            ObjVal {
                                class: o.class,
                                bytes: o.bytes.update(index as int, byte),
                                props: o.props,
                                elems: o.elems,
                            },
                        ),
                    )
                } else {
                    r == SysStatus::InvalidArg && final(env)@ == old(env)@
                }
            },
            _ => r == SysStatus::InvalidArg && final(env)@ == old(env)@,
        },
{
    if v.raw >= env.slots.len() {
        return SysStatus::InvalidArg;
    }
    let fits = match &env.slots[v.raw] {
        SysSlot::Object(o) => matches!(o.class, SysObjectClass::ArrayBuffer | SysObjectClass::Buffer)
            && index < o.bytes.len(),
        _ => false,
    };
    if !fits {
        return SysStatus::InvalidArg;
    }
    let ghost pre = env@;
    let ghost ov = pre.value_of(v)->Object_0;
    let mut o = take_object(env, v.raw);
    o.bytes[index] = byte;
    proof {
        assert(obj_closed(ov, pre.slots.len()));
        assert(obj_closed(o@, pre.slots.len()));
    }
    put_object(env, v.raw, o);
    proof {
        assert(env@.slots =~= pre.slots.update(
            v.raw as int,
            SlotVal::Object(
                ObjVal {
                    class: ov.class,
                    bytes: ov.bytes.update(index as int, byte),
                    props: ov.props,
                    elems: ov.elems,
                },
            ),
        ));
    }
    SysStatus::Success
}


/// Models `napi_instanceof`.  Instance checks walk the prototype chain,
/// and the model keeps none, so no value is an instance of anything.
pub fn napi_instanceof(env: &HostEnv, v: SysValue, constructor: SysValue) -> (r: (SysStatus, bool))
    requires
        env@.wf(),
    ensures
        !(env@.valid(v) && env@.valid(constructor)) ==> r.0 == SysStatus::InvalidArg,
        env@.valid(v) && env@.valid(constructor) ==> r.0 == SysStatus::Success && r.1 == false,
{
    if v.raw >= env.slots.len() || constructor.raw >= env.slots.len() {
        return (SysStatus::InvalidArg, false);
    }
    (SysStatus::Success, false)
}

} // verus!
