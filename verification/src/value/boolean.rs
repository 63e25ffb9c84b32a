//! The two boolean singletons, wrapped.

use vstd::prelude::*;

use crate::env::NapiEnv;
use crate::result::NapiResult;
use crate::sys;
use crate::sys::boolean_handle;
use crate::sys::HostEnvView;
use crate::sys::SlotVal;
use crate::sys::SysValue;

use super::cast_accepts;
use super::cast_err;
use super::CastKind;
use super::NapiAny;
use super::NapiValue;

verus! {

/// Wrapper for one of the runtime's two boolean singletons.
#[derive(Clone, Copy, Debug)]
pub struct NapiBoolean {
    pub value: SysValue,
}

impl NapiBoolean {
    /// Fetches the boolean singleton for `value`.
    fn new(env: &mut NapiEnv, value: bool) -> (r: NapiResult<Self>)
        requires
            old(env)@.wf(),
        ensures
            final(env)@ == old(env)@,
            r matches Ok(b) && b.sys_value() == boolean_handle(value) && b.valid(old(env)@)
                && old(env)@.value_of(b.sys_value()) == SlotVal::Boolean(value),
    {
        let (status, sys_value) = sys::napi_get_boolean(env.as_sys_env(), value);
        env.handle_status(status)?;
        Ok(Self { value: sys_value })
    }

    /// The true singleton.
    pub fn truth(env: &mut NapiEnv) -> (r: NapiResult<Self>)
        requires
            old(env)@.wf(),
        ensures
            final(env)@ == old(env)@,
            r matches Ok(b) && b.sys_value() == boolean_handle(true) && b.valid(old(env)@)
                && old(env)@.value_of(b.sys_value()) == SlotVal::Boolean(true),
    {
        NapiBoolean::new(env, true)
    }

    /// The false singleton.
    pub fn lie(env: &mut NapiEnv) -> (r: NapiResult<Self>)
        requires
            old(env)@.wf(),
        ensures
            final(env)@ == old(env)@,
            r matches Ok(b) && b.sys_value() == boolean_handle(false) && b.valid(old(env)@)
                && old(env)@.value_of(b.sys_value()) == SlotVal::Boolean(false),
    {
        NapiBoolean::new(env, false)
    }

    /// Extracts the wrapped truth value.
    pub fn to_bool(&self, env: &mut NapiEnv) -> (r: NapiResult<bool>)
        requires
            old(env)@.wf(),
            self.valid(old(env)@),
        ensures
            final(env)@ == old(env)@,
            r matches Ok(b) && old(env)@.value_of(self.sys_value()) == SlotVal::Boolean(b),
    {
        let (status, result) = sys::napi_get_value_bool(env.as_sys_env(), self.value);
        env.handle_status(status)?;
        Ok(result)
    }

    /// Unchecked construction from a handle already known to hold a
    /// boolean.
    pub fn construct(value: SysValue) -> (r: Self)
        ensures
            r.sys_value() == value,
    {
        Self { value }
    }
}

impl NapiValue for NapiBoolean {
    open spec fn sys_value(&self) -> SysValue {
        self.value
    }

    open spec fn valid(&self, e: HostEnvView) -> bool {
        e.valid(self.value) && e.value_of(self.value) is Boolean
    }

    proof fn valid_handle(&self, e: HostEnvView) {
    }

    fn as_sys_value(&self) -> (r: SysValue) {
        self.value
    }

    fn from_sys_checked(env: &mut NapiEnv, value: SysValue) -> (r: NapiResult<Self>)
        ensures
            cast_accepts(CastKind::Boolean, old(env)@.value_of(value)) <==> r is Ok,
            r matches Ok(v) ==> v.value == value && final(env)@ == old(env)@,
            r matches Err(e) ==> cast_err(old(env)@, final(env)@, CastKind::Boolean, e),
    {
        NapiAny::with_value(value).as_boolean(env)
    }
}

} // verus!
