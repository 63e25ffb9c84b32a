//! The undefined singleton, wrapped.

use vstd::prelude::*;

use crate::env::NapiEnv;
use crate::result::NapiResult;
use crate::sys;
use crate::sys::undefined_handle;
use crate::sys::HostEnvView;
use crate::sys::SysValue;

use super::NapiAny;
use super::NapiValue;

verus! {

/// Wrapper for the runtime's undefined singleton.
#[derive(Clone, Copy, Debug)]
pub struct NapiUndefined {
    pub value: SysValue,
}

impl NapiUndefined {
    /// Fetches the undefined singleton.
    pub fn new(env: &mut NapiEnv) -> (r: NapiResult<Self>)
        requires
            old(env)@.wf(),
        ensures
            final(env)@ == old(env)@,
            r matches Ok(u) && u.sys_value() == undefined_handle() && u.valid(old(env)@),
    {
        let (status, value) = sys::napi_get_undefined(env.as_sys_env());
        env.handle_status(status)?;
        Ok(Self { value })
    }

    /// Unchecked construction from a handle already known to be the
    /// undefined singleton.
    pub fn construct(value: SysValue) -> (r: Self)
        ensures
            r.sys_value() == value,
    {
        Self { value }
    }
}

impl NapiValue for NapiUndefined {
    open spec fn sys_value(&self) -> SysValue {
        self.value
    }

    open spec fn valid(&self, e: HostEnvView) -> bool {
        e.valid(self.value) && e.value_of(self.value) is Undefined
    }

    proof fn valid_handle(&self, e: HostEnvView) {
    }

    fn as_sys_value(&self) -> (r: SysValue) {
        self.value
    }

    fn from_sys_checked(env: &mut NapiEnv, value: SysValue) -> (r: NapiResult<Self>)
        ensures
            super::cast_accepts(super::CastKind::Undefined, old(env)@.value_of(value)) <==> r
                is Ok,
            r matches Ok(v) ==> v.value == value && final(env)@ == old(env)@,
            r matches Err(e) ==> super::cast_err(
                old(env)@,
                final(env)@,
                super::CastKind::Undefined,
                e,
            ),
    {
        NapiAny::with_value(value).as_undefined(env)
    }
}

} // verus!
