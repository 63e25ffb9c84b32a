//! The null singleton, wrapped.

use vstd::prelude::*;

use crate::env::NapiEnv;
use crate::result::NapiError;
use crate::result::NapiResult;
use crate::sys;
use crate::sys::null_handle;
use crate::sys::HostEnvView;
use crate::sys::SysValue;

use super::cast_accepts;
use super::cast_err;
use super::CastKind;
use super::NapiString;
use super::NapiValue;

verus! {

/// Wrapper for the runtime's null singleton.
#[derive(Clone, Copy, Debug)]
pub struct NapiNull {
    pub value: SysValue,
}

impl NapiNull {
    /// Fetches the null singleton.
    pub fn new(env: &mut NapiEnv) -> (r: NapiResult<Self>)
        requires
            old(env)@.wf(),
        ensures
            final(env)@ == old(env)@,
            r matches Ok(u) && u.sys_value() == null_handle() && u.valid(old(env)@),
    {
        let (status, value) = sys::napi_get_null(env.as_sys_env());
        env.handle_status(status)?;
        Ok(Self { value })
    }

    /// Unchecked construction from a handle already known to be the null
    /// singleton.
    pub fn construct(value: SysValue) -> (r: Self)
        ensures
            r.sys_value() == value,
    {
        Self { value }
    }
}

impl NapiValue for NapiNull {
    open spec fn sys_value(&self) -> SysValue {
        self.value
    }

    open spec fn valid(&self, e: HostEnvView) -> bool {
        e.valid(self.value) && e.value_of(self.value) is Null
    }

    proof fn valid_handle(&self, e: HostEnvView) {
    }

    fn as_sys_value(&self) -> (r: SysValue) {
        self.value
    }

    /// The null check is structural: the handle must be strictly equal to
    /// the null singleton.
    fn from_sys_checked(env: &mut NapiEnv, value: SysValue) -> (r: NapiResult<Self>)
        ensures
            cast_accepts(CastKind::Null, old(env)@.value_of(value)) <==> r is Ok,
            r matches Ok(v) ==> v.value == value && final(env)@ == old(env)@,
            r matches Err(e) ==> cast_err(old(env)@, final(env)@, CastKind::Null, e),
    {
        let null = NapiNull::new(env)?;
        let (status, structurally_null) = sys::napi_strict_equals(
            env.as_sys_env(),
            value,
            null.value,
        );
        env.handle_status(status)?;
        if !structurally_null {
            let message = NapiString::from_str(env, "null expected")?;
            return Err(NapiError::type_error(env, &message));
        }
        Ok(Self { value })
    }
}

} // verus!
