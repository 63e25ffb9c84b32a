//! The dynamic value: an untyped handle, the join of every concrete
//! variant, with checked narrowing downcasts to each of them.

use vstd::prelude::*;

use crate::env::NapiEnv;
use crate::result::NapiError;
use crate::result::NapiResult;
use crate::sys;
use crate::sys::env_extends;
use crate::sys::undefined_handle;
use crate::sys::HostEnvView;
use crate::sys::SysValue;

use super::cast_accepts;
use super::cast_err;
use super::CastKind;
use super::NapiArray;
use super::NapiBoolean;
use super::NapiNull;
use super::NapiNumber;
use super::NapiObject;
use super::NapiString;
use super::NapiUndefined;
use super::NapiValue;
use super::NapiValueType;

verus! {

/// Wrapper for a value of any runtime type.  Narrowing to a concrete
/// variant is a checked downcast: it fails on a type mismatch, unlike
/// coercion, which never fails on type.
#[derive(Clone, Copy, Debug)]
pub struct NapiAny {
    pub value: SysValue,
}

impl NapiAny {
    /// A fresh dynamic value holding the undefined singleton.
    pub fn new(env: &mut NapiEnv) -> (r: NapiResult<Self>)
        requires
            old(env)@.wf(),
        ensures
            final(env)@ == old(env)@,
            r matches Ok(a) && a.sys_value() == undefined_handle(),
    {
        let (status, value) = sys::napi_get_undefined(env.as_sys_env());
        env.handle_status(status)?;
        Ok(Self { value })
    }

    /// Wraps an arbitrary handle without inspecting it.
    pub fn with_value(value: SysValue) -> (r: Self)
        ensures
            r.sys_value() == value,
    {
        Self { value }
    }

    /// Checked downcast to the undefined singleton.
    pub fn as_undefined(&self, env: &mut NapiEnv) -> (r: NapiResult<NapiUndefined>)
        requires
            old(env)@.wf(),
            old(env)@.valid(self.sys_value()),
        ensures
            final(env)@.wf(),
            env_extends(old(env)@, final(env)@),
            cast_accepts(CastKind::Undefined, old(env)@.value_of(self.sys_value())) <==> r is Ok,
            r matches Ok(v) ==> v.value == self.sys_value() && final(env)@ == old(env)@,
            r matches Err(e) ==> cast_err(old(env)@, final(env)@, CastKind::Undefined, e),
    {
        match self.value_type(env)? {
            NapiValueType::Undefined => Ok(NapiUndefined::construct(self.value)),
            _ => {
                let message = NapiString::from_str(env, "undefined expected")?;
                Err(NapiError::type_error(env, &message))
            },
        }
    }

    /// Checked downcast to the null singleton.
    pub fn as_null(&self, env: &mut NapiEnv) -> (r: NapiResult<NapiNull>)
        requires
            old(env)@.wf(),
            old(env)@.valid(self.sys_value()),
        ensures
            final(env)@.wf(),
            env_extends(old(env)@, final(env)@),
            cast_accepts(CastKind::Null, old(env)@.value_of(self.sys_value())) <==> r is Ok,
            r matches Ok(v) ==> v.value == self.sys_value() && final(env)@ == old(env)@,
            r matches Err(e) ==> cast_err(old(env)@, final(env)@, CastKind::Null, e),
    {
        match self.value_type(env)? {
            NapiValueType::Null => Ok(NapiNull::construct(self.value)),
            _ => {
                let message = NapiString::from_str(env, "null expected")?;
                Err(NapiError::type_error(env, &message))
            },
        }
    }

    /// Checked downcast to a boolean.
    pub fn as_boolean(&self, env: &mut NapiEnv) -> (r: NapiResult<NapiBoolean>)
        requires
            old(env)@.wf(),
            old(env)@.valid(self.sys_value()),
        ensures
            final(env)@.wf(),
            env_extends(old(env)@, final(env)@),
            cast_accepts(CastKind::Boolean, old(env)@.value_of(self.sys_value())) <==> r is Ok,
            r matches Ok(v) ==> v.value == self.sys_value() && final(env)@ == old(env)@,
            r matches Err(e) ==> cast_err(old(env)@, final(env)@, CastKind::Boolean, e),
    {
        match self.value_type(env)? {
            NapiValueType::Boolean => Ok(NapiBoolean::construct(self.value)),
            _ => {
                let message = NapiString::from_str(env, "boolean expected")?;
                Err(NapiError::type_error(env, &message))
            },
        }
    }

    /// Checked downcast to a number.
    pub fn as_number(&self, env: &mut NapiEnv) -> (r: NapiResult<NapiNumber>)
        requires
            old(env)@.wf(),
            old(env)@.valid(self.sys_value()),
        ensures
            final(env)@.wf(),
            env_extends(old(env)@, final(env)@),
            cast_accepts(CastKind::Number, old(env)@.value_of(self.sys_value())) <==> r is Ok,
            r matches Ok(v) ==> v.value == self.sys_value() && final(env)@ == old(env)@,
            r matches Err(e) ==> cast_err(old(env)@, final(env)@, CastKind::Number, e),
    {
        match self.value_type(env)? {
            NapiValueType::Number => Ok(NapiNumber::construct(self.value)),
            _ => {
                let message = NapiString::from_str(env, "number expected")?;
                Err(NapiError::type_error(env, &message))
            },
        }
    }

    /// Checked downcast to a string.
    pub fn as_string(&self, env: &mut NapiEnv) -> (r: NapiResult<NapiString>)
        requires
            old(env)@.wf(),
            old(env)@.valid(self.sys_value()),
        ensures
            final(env)@.wf(),
            env_extends(old(env)@, final(env)@),
            cast_accepts(CastKind::String, old(env)@.value_of(self.sys_value())) <==> r is Ok,
            r matches Ok(v) ==> v.value == self.sys_value() && final(env)@ == old(env)@,
            r matches Err(e) ==> cast_err(old(env)@, final(env)@, CastKind::String, e),
    {
        match self.value_type(env)? {
            NapiValueType::String => Ok(NapiString::construct(self.value)),
            _ => {
                let message = NapiString::from_str(env, "string expected")?;
                Err(NapiError::type_error(env, &message))
            },
        }
    }

    /// Checked downcast to an object.  Strings and functions are
    /// object-representable, so they pass too.
    pub fn as_object(&self, env: &mut NapiEnv) -> (r: NapiResult<NapiObject>)
        requires
            old(env)@.wf(),
            old(env)@.valid(self.sys_value()),
        ensures
            final(env)@.wf(),
            env_extends(old(env)@, final(env)@),
            cast_accepts(CastKind::Object, old(env)@.value_of(self.sys_value())) <==> r is Ok,
            r matches Ok(v) ==> v.value == self.sys_value() && final(env)@ == old(env)@,
            r matches Err(e) ==> cast_err(old(env)@, final(env)@, CastKind::Object, e),
    {
        match self.value_type(env)? {
            NapiValueType::Object | NapiValueType::String | NapiValueType::Function => Ok(
                NapiObject::construct(self.value),
            ),
            _ => {
                let message = NapiString::from_str(env, "object expected")?;
                Err(NapiError::type_error(env, &message))
            },
        }
    }

    /// Checked downcast to an array.
    pub fn as_array(&self, env: &mut NapiEnv) -> (r: NapiResult<NapiArray>)
        requires
            old(env)@.wf(),
            old(env)@.valid(self.sys_value()),
        ensures
            final(env)@.wf(),
            env_extends(old(env)@, final(env)@),
            cast_accepts(CastKind::Array, old(env)@.value_of(self.sys_value())) <==> r is Ok,
            r matches Ok(v) ==> v.value == self.sys_value() && final(env)@ == old(env)@,
            r matches Err(e) ==> cast_err(old(env)@, final(env)@, CastKind::Array, e),
    {
        if self.is_array(env)? {
            Ok(NapiArray::construct(self.value))
        } else {
            let message = NapiString::from_str(env, "array expected")?;
            Err(NapiError::type_error(env, &message))
        }
    }
}

impl NapiValue for NapiAny {
    open spec fn sys_value(&self) -> SysValue {
        self.value
    }

    open spec fn valid(&self, e: HostEnvView) -> bool {
        e.valid(self.value)
    }

    proof fn valid_handle(&self, e: HostEnvView) {
    }

    fn as_sys_value(&self) -> (r: SysValue) {
        self.value
    }

    fn from_sys_checked(env: &mut NapiEnv, value: SysValue) -> (r: NapiResult<Self>)
        ensures
            r matches Ok(v) && v.sys_value() == value && final(env)@ == old(env)@,
    {
        Ok(Self { value })
    }
}

} // verus!
