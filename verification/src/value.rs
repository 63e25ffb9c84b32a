//! The typed value family: a closed set of wrappers over an opaque value
//! handle, each bound to the environment that issued the handle.  The
//! environment is passed explicitly to every operation; a wrapper is
//! meaningful only under the environment it was created from.

use vstd::prelude::*;

use crate::env::NapiEnv;
use crate::result::error_kind_of;
use crate::result::NapiResult;
use crate::sys;
use crate::sys::allocated;
use crate::sys::empty_obj;
use crate::sys::env_extends;
use crate::sys::error_allocated;
use crate::sys::number_form;
use crate::sys::second_alloc_handle;
use crate::sys::slot_is_array;
use crate::sys::slot_is_arraybuffer;
use crate::sys::slot_is_buffer;
use crate::sys::slot_is_error;
use crate::sys::strict_eq;
use crate::sys::string_form;
use crate::sys::truthy;
use crate::sys::type_of;
use crate::sys::HostEnvView;
use crate::sys::SlotVal;
use crate::sys::SysObjectClass;
use crate::sys::SysStatus;
use crate::sys::SysValue;
use crate::sys::SysValueType;

mod any;
mod array;
mod array_buffer;
mod boolean;
mod buffer;
mod null;
mod number;
mod object;
mod string;
mod undefined;

pub use self::any::NapiAny;
pub use self::array::array_elems;
pub use self::array::NapiArray;
pub use self::array_buffer::NapiArrayBuffer;
pub use self::boolean::NapiBoolean;
pub use self::buffer::NapiBuffer;
pub use self::null::NapiNull;
pub use self::number::number_payload;
pub use self::number::NapiNumber;
pub use self::object::NapiObject;
pub use self::string::text_payload;
pub use self::string::NapiString;
pub use self::undefined::NapiUndefined;

verus! {

/// The runtime types a value can report, as the library exposes them.
#[derive(Debug, Clone, Copy, Eq, PartialEq, Structural)]
pub enum NapiValueType {
    Undefined,
    Null,
    Boolean,
    Number,
    String,
    Symbol,
    Object,
    Function,
    External,
}

/// The library-level tag for a native type tag.
pub open spec fn value_type_of(t: SysValueType) -> NapiValueType {
    match t {
        SysValueType::Undefined => NapiValueType::Undefined,
        SysValueType::Null => NapiValueType::Null,
        SysValueType::Boolean => NapiValueType::Boolean,
        SysValueType::Number => NapiValueType::Number,
        SysValueType::String => NapiValueType::String,
        SysValueType::Symbol => NapiValueType::Symbol,
        SysValueType::Object => NapiValueType::Object,
        SysValueType::Function => NapiValueType::Function,
        SysValueType::External => NapiValueType::External,
    }
}

/// Which variant a checked construction expects.
#[derive(Clone, Copy, Debug, PartialEq, Eq, Structural)]
pub enum CastKind {
    Undefined,
    Null,
    Boolean,
    Number,
    String,
    Object,
    Array,
    ArrayBuffer,
    Buffer,
}

/// Whether a slot's runtime type satisfies a checked construction.  A
/// string is acceptable wherever an object is wanted, as the host treats
/// strings as object-representable.
pub open spec fn cast_accepts(k: CastKind, s: SlotVal) -> bool {
    match k {
        CastKind::Undefined => s is Undefined,
        CastKind::Null => s is Null,
        CastKind::Boolean => s is Boolean,
        CastKind::Number => s is Number,
        CastKind::String => s is Text,
        CastKind::Object => s is Object || s is Text,
        CastKind::Array => slot_is_array(s),
        CastKind::ArrayBuffer => slot_is_arraybuffer(s),
        CastKind::Buffer => slot_is_buffer(s),
    }
}

/// The message a failing checked construction carries: it names the
/// expected type.
pub open spec fn cast_message(k: CastKind) -> Seq<char> {
    match k {
        CastKind::Undefined => "undefined expected"@,
        CastKind::Null => "null expected"@,
        CastKind::Boolean => "boolean expected"@,
        CastKind::Number => "number expected"@,
        CastKind::String => "string expected"@,
        CastKind::Object => "object expected"@,
        CastKind::Array => "array expected"@,
        CastKind::ArrayBuffer => "arraybuffer expected"@,
        CastKind::Buffer => "buffer expected"@,
    }
}

/// What a failing checked construction guarantees: a type error whose
/// attached host exception is a fresh type-error object naming the
/// expected type, with the runtime's pending register untouched.
pub open spec fn cast_err(
    pre: HostEnvView,
    post: HostEnvView,
    k: CastKind,
    e: crate::result::NapiError,
) -> bool {
    &&& e.kind == crate::result::NapiErrorKind::ApplicationError
    &&& e.message is None
    &&& e.exception == Some(second_alloc_handle(pre))
    &&& error_allocated(
        pre,
        post,
        SysObjectClass::TypeErrorObject,
        cast_message(k),
        second_alloc_handle(pre),
    )
    &&& post.pending == pre.pending
}

/// What a wrapper operation's error looks like when a native call failed
/// with `status` against the store `pre`: the error carries the kind for
/// that status and whatever exception was pending, which translation
/// cleared; the store's slots are untouched.
pub open spec fn failed_with(
    pre: HostEnvView,
    post: HostEnvView,
    e: crate::result::NapiError,
    status: SysStatus,
) -> bool {
    &&& e.kind == error_kind_of(status)
    &&& e.message is None
    &&& e.exception == pre.pending
    &&& post.slots == pre.slots
    &&& post.pending is None
}

/// Shared face of every typed wrapper: its raw handle, its validity under
/// an environment, checked construction from an untrusted handle, and the
/// coercions the host language defines for every value.
pub trait NapiValue: Sized {
    /// The wrapped raw handle.
    spec fn sys_value(&self) -> SysValue;

    /// The wrapper is meaningful under `e`: its handle points at a slot
    /// whose runtime type matches the wrapper's variant.
    spec fn valid(&self, e: HostEnvView) -> bool;

    /// Validity always includes the handle pointing at a slot.
    proof fn valid_handle(&self, e: HostEnvView)
        requires
            self.valid(e),
        ensures
            e.valid(self.sys_value()),
    ;

    /// Hands the raw handle back, for crossing into native calls.
    fn as_sys_value(&self) -> (r: SysValue)
        ensures
            r == self.sys_value(),
    ;

    /// Checked construction: verifies the handle's runtime type before
    /// wrapping it, and reports a type error naming the expected type on
    /// a mismatch.
    fn from_sys_checked(env: &mut NapiEnv, value: SysValue) -> (r: NapiResult<Self>)
        requires
            old(env)@.wf(),
            old(env)@.valid(value),
        ensures
            final(env)@.wf(),
            env_extends(old(env)@, final(env)@),
            r matches Ok(v) ==> v.sys_value() == value && v.valid(final(env)@),
            r matches Err(e) ==> e.wf(final(env)@),
    ;

    /// The value's runtime type tag.
    fn value_type(&self, env: &mut NapiEnv) -> (r: NapiResult<NapiValueType>)
        requires
            old(env)@.wf(),
            old(env)@.valid(self.sys_value()),
        ensures
            final(env)@ == old(env)@,
            r matches Ok(t) && t == value_type_of(type_of(old(env)@.value_of(self.sys_value()))),
    {
        let (status, sys_type) = sys::napi_typeof(env.as_sys_env(), self.as_sys_value());
        env.handle_status(status)?;
        Ok(
            match sys_type {
                SysValueType::Undefined => NapiValueType::Undefined,
                SysValueType::Null => NapiValueType::Null,
                SysValueType::Boolean => NapiValueType::Boolean,
                SysValueType::Number => NapiValueType::Number,
                SysValueType::String => NapiValueType::String,
                SysValueType::Symbol => NapiValueType::Symbol,
                SysValueType::Object => NapiValueType::Object,
                SysValueType::Function => NapiValueType::Function,
                SysValueType::External => NapiValueType::External,
            },
        )
    }

    /// The value is an array.
    fn is_array(&self, env: &mut NapiEnv) -> (r: NapiResult<bool>)
        requires
            old(env)@.wf(),
            old(env)@.valid(self.sys_value()),
        ensures
            final(env)@ == old(env)@,
            r matches Ok(b) && b == slot_is_array(old(env)@.value_of(self.sys_value())),
    {
        let (status, result) = sys::napi_is_array(env.as_sys_env(), self.as_sys_value());
        env.handle_status(status)?;
        Ok(result)
    }

    /// The value is a raw byte buffer.
    fn is_arraybuffer(&self, env: &mut NapiEnv) -> (r: NapiResult<bool>)
        requires
            old(env)@.wf(),
            old(env)@.valid(self.sys_value()),
        ensures
            final(env)@ == old(env)@,
            r matches Ok(b) && b == slot_is_arraybuffer(old(env)@.value_of(self.sys_value())),
    {
        let (status, result) = sys::napi_is_arraybuffer(env.as_sys_env(), self.as_sys_value());
        env.handle_status(status)?;
        Ok(result)
    }

    /// The value is a runtime-managed byte buffer.
    fn is_buffer(&self, env: &mut NapiEnv) -> (r: NapiResult<bool>)
        requires
            old(env)@.wf(),
            old(env)@.valid(self.sys_value()),
        ensures
            final(env)@ == old(env)@,
            r matches Ok(b) && b == slot_is_buffer(old(env)@.value_of(self.sys_value())),
    {
        let (status, result) = sys::napi_is_buffer(env.as_sys_env(), self.as_sys_value());
        env.handle_status(status)?;
        Ok(result)
    }

    /// The value is a host error object.
    fn is_error(&self, env: &mut NapiEnv) -> (r: NapiResult<bool>)
        requires
            old(env)@.wf(),
            old(env)@.valid(self.sys_value()),
        ensures
            final(env)@ == old(env)@,
            r matches Ok(b) && b == slot_is_error(old(env)@.value_of(self.sys_value())),
    {
        let (status, result) = sys::napi_is_error(env.as_sys_env(), self.as_sys_value());
        env.handle_status(status)?;
        Ok(result)
    }

    /// The value is a typed-array view (never, in this model).
    fn is_typedarray(&self, env: &mut NapiEnv) -> (r: NapiResult<bool>)
        requires
            old(env)@.wf(),
            old(env)@.valid(self.sys_value()),
        ensures
            final(env)@ == old(env)@,
            r matches Ok(b) && b == false,
    {
        let (status, result) = sys::napi_is_typedarray(env.as_sys_env(), self.as_sys_value());
        env.handle_status(status)?;
        Ok(result)
    }

    /// The value is a data view (never, in this model).
    fn is_dataview(&self, env: &mut NapiEnv) -> (r: NapiResult<bool>)
        requires
            old(env)@.wf(),
            old(env)@.valid(self.sys_value()),
        ensures
            final(env)@ == old(env)@,
            r matches Ok(b) && b == false,
    {
        let (status, result) = sys::napi_is_dataview(env.as_sys_env(), self.as_sys_value());
        env.handle_status(status)?;
        Ok(result)
    }

}

/// Coerces to a boolean: always succeeds, handing out the singleton
/// boolean for the host language's boolean coercion.
pub fn to_napi_boolean<T: NapiValue>(v: &T, env: &mut NapiEnv) -> (r: NapiResult<NapiBoolean>)
    requires
        old(env)@.wf(),
        old(env)@.valid(v.sys_value()),
    ensures
        final(env)@ == old(env)@,
        r matches Ok(b) && old(env)@.valid(b.sys_value()) && old(env)@.value_of(b.sys_value())
            == SlotVal::Boolean(truthy(old(env)@.value_of(v.sys_value()))),
{
    let (status, value) = sys::napi_coerce_to_bool(env.as_sys_env(), v.as_sys_value());
    env.handle_status(status)?;
    Ok(NapiBoolean::construct(value))
}

/// Coerces to a number: always succeeds, allocating a number slot
/// holding the model's numeric coercion.
pub fn to_napi_number<T: NapiValue>(v: &T, env: &mut NapiEnv) -> (r: NapiResult<NapiNumber>)
    requires
        old(env)@.wf(),
        old(env)@.valid(v.sys_value()),
    ensures
        final(env)@.wf(),
        env_extends(old(env)@, final(env)@),
        r matches Ok(n) && allocated(
            old(env)@,
            final(env)@,
            n.sys_value(),
            SlotVal::Number(number_form(old(env)@.value_of(v.sys_value()))),
        ),
{
    let (status, value) = sys::napi_coerce_to_number(&mut env.env, v.as_sys_value());
    env.handle_status(status)?;
    Ok(NapiNumber::construct(value))
}

/// Coerces to a string: always succeeds, allocating a string slot
/// holding the model's string coercion.
pub fn to_napi_string<T: NapiValue>(v: &T, env: &mut NapiEnv) -> (r: NapiResult<NapiString>)
    requires
        old(env)@.wf(),
        old(env)@.valid(v.sys_value()),
    ensures
        final(env)@.wf(),
        env_extends(old(env)@, final(env)@),
        r matches Ok(s) && allocated(
            old(env)@,
            final(env)@,
            s.sys_value(),
            SlotVal::Text(string_form(old(env)@.value_of(v.sys_value()))),
        ),
{
    let (status, value) = sys::napi_coerce_to_string(&mut env.env, v.as_sys_value());
    env.handle_status(status)?;
    Ok(NapiString::construct(value))
}

/// Coerces to an object.  An object coerces to itself and a primitive
/// to a fresh wrapper object; undefined and null make the runtime
/// throw, and the pending type error comes back attached to the
/// returned error.
pub fn to_napi_object<T: NapiValue>(v: &T, env: &mut NapiEnv) -> (r: NapiResult<NapiObject>)
    requires
        old(env)@.wf(),
        old(env)@.valid(v.sys_value()),
    ensures
        final(env)@.wf(),
        env_extends(old(env)@, final(env)@),
        match old(env)@.value_of(v.sys_value()) {
            SlotVal::Object(_) => r matches Ok(o) && o.sys_value() == v.sys_value()
                && final(env)@ == old(env)@,
            SlotVal::Boolean(_) | SlotVal::Number(_) | SlotVal::Text(_) => r matches Ok(o)
                && allocated(
                old(env)@,
                final(env)@,
                o.sys_value(),
                SlotVal::Object(empty_obj()),
            ),
            SlotVal::Undefined | SlotVal::Null => r matches Err(e) && {
                &&& e.kind == error_kind_of(SysStatus::PendingException)
                &&& e.exception == Some(second_alloc_handle(old(env)@))
                &&& error_allocated(
                    old(env)@,
                    final(env)@,
                    SysObjectClass::TypeErrorObject,
                    "Cannot convert undefined or null to object"@,
                    second_alloc_handle(old(env)@),
                )
                &&& final(env)@.pending is None
            },
        },
{
    let (status, value) = sys::napi_coerce_to_object(&mut env.env, v.as_sys_value());
    env.handle_status(status)?;
    Ok(NapiObject::construct(value))
}

/// Re-wraps the handle as a dynamic value.
pub fn as_napi_any<T: NapiValue>(v: &T) -> (r: NapiAny)
    ensures
        r.sys_value() == v.sys_value(),
{
    NapiAny::with_value(v.as_sys_value())
}

/// Whether `v` is an instance of `constructor` (never, in this model,
/// which keeps no prototype chains).
pub fn instanceof<T: NapiValue, U: NapiValue>(v: &T, env: &mut NapiEnv, constructor: &U) -> (r:
    NapiResult<bool>)
    requires
        old(env)@.wf(),
        old(env)@.valid(v.sys_value()),
        old(env)@.valid(constructor.sys_value()),
    ensures
        final(env)@ == old(env)@,
        r matches Ok(b) && b == false,
{
    let (status, result) = sys::napi_instanceof(
        env.as_sys_env(),
        v.as_sys_value(),
        constructor.as_sys_value(),
    );
    env.handle_status(status)?;
    Ok(result)
}

/// Strict equality of two wrapped values: handle identity, or equal
/// primitive payloads.
pub fn strict_equals<T: NapiValue, U: NapiValue>(a: &T, env: &mut NapiEnv, b: &U) -> (r: NapiResult<
    bool,
>)
    requires
        old(env)@.wf(),
        old(env)@.valid(a.sys_value()),
        old(env)@.valid(b.sys_value()),
    ensures
        final(env)@ == old(env)@,
        r matches Ok(eq) && eq == strict_eq(old(env)@, a.sys_value(), b.sys_value()),
{
    let (status, result) = sys::napi_strict_equals(
        env.as_sys_env(),
        a.as_sys_value(),
        b.as_sys_value(),
    );
    env.handle_status(status)?;
    Ok(result)
}

/// Face of every value that is representable as a host object, granting
/// the object capability operations.
pub trait AsNapiObject: NapiValue {
    /// Re-wraps the handle as an object, without a runtime check; the
    /// object operations themselves report a failing status when the
    /// underlying value cannot act as an object.
    fn as_napi_object(&self) -> (r: NapiObject)
        ensures
            r.sys_value() == self.sys_value(),
    {
        NapiObject::construct(self.as_sys_value())
    }
}

} // verus!
