//! Numbers: wrappers over a number slot, with integer construction and
//! extraction.

use vstd::prelude::*;

use crate::env::NapiEnv;
use crate::result::NapiResult;
use crate::sys;
use crate::sys::allocated;
use crate::sys::env_extends;
use crate::sys::HostEnvView;
use crate::sys::SlotVal;
use crate::sys::SysValue;

use super::cast_accepts;
use super::cast_err;
use super::CastKind;
use super::NapiAny;
use super::NapiValue;

verus! {

/// The numeric payload of a number slot.
pub open spec fn number_payload(s: SlotVal) -> i64 {
    s->Number_0
}

/// Wrapper for a number value.
#[derive(Clone, Copy, Debug)]
pub struct NapiNumber {
    pub value: SysValue,
}

impl NapiNumber {
    /// Allocates a number holding a signed 32-bit value.
    pub fn from_i32(env: &mut NapiEnv, value: i32) -> (r: NapiResult<Self>)
        requires
            old(env)@.wf(),
        ensures
            final(env)@.wf(),
            env_extends(old(env)@, final(env)@),
            r matches Ok(n) && n.valid(final(env)@) && allocated(
                old(env)@,
                final(env)@,
                n.sys_value(),
                SlotVal::Number(value as i64),
            ),
    {
        let (status, sys_value) = sys::napi_create_int32(&mut env.env, value);
        env.handle_status(status)?;
        Ok(Self { value: sys_value })
    }

    /// Allocates a number holding a signed 64-bit value.
    pub fn from_i64(env: &mut NapiEnv, value: i64) -> (r: NapiResult<Self>)
        requires
            old(env)@.wf(),
        ensures
            final(env)@.wf(),
            env_extends(old(env)@, final(env)@),
            r matches Ok(n) && n.valid(final(env)@) && allocated(
                old(env)@,
                final(env)@,
                n.sys_value(),
                SlotVal::Number(value),
            ),
    {
        let (status, sys_value) = sys::napi_create_int64(&mut env.env, value);
        env.handle_status(status)?;
        Ok(Self { value: sys_value })
    }

    /// Extracts the payload truncated to its low 32 bits, as the host
    /// documents for out-of-range values.
    pub fn to_i32(&self, env: &mut NapiEnv) -> (r: NapiResult<i32>)
        requires
            old(env)@.wf(),
            self.valid(old(env)@),
        ensures
            final(env)@ == old(env)@,
            r matches Ok(x) && x == number_payload(old(env)@.value_of(self.sys_value())) as i32,
    {
        let (status, result) = sys::napi_get_value_int32(env.as_sys_env(), self.value);
        env.handle_status(status)?;
        Ok(result)
    }

    /// Extracts the payload exactly.
    pub fn to_i64(&self, env: &mut NapiEnv) -> (r: NapiResult<i64>)
        requires
            old(env)@.wf(),
            self.valid(old(env)@),
        ensures
            final(env)@ == old(env)@,
            r matches Ok(x) && x == number_payload(old(env)@.value_of(self.sys_value())),
    {
        let (status, result) = sys::napi_get_value_int64(env.as_sys_env(), self.value);
        env.handle_status(status)?;
        Ok(result)
    }

    /// Unchecked construction from a handle already known to hold a
    /// number.
    pub fn construct(value: SysValue) -> (r: Self)
        ensures
            r.sys_value() == value,
    {
        Self { value }
    }
}

impl NapiValue for NapiNumber {
    open spec fn sys_value(&self) -> SysValue {
        self.value
    }

    open spec fn valid(&self, e: HostEnvView) -> bool {
        e.valid(self.value) && e.value_of(self.value) is Number
    }

    proof fn valid_handle(&self, e: HostEnvView) {
    }

    fn as_sys_value(&self) -> (r: SysValue) {
        self.value
    }

    fn from_sys_checked(env: &mut NapiEnv, value: SysValue) -> (r: NapiResult<Self>)
        ensures
            cast_accepts(CastKind::Number, old(env)@.value_of(value)) <==> r is Ok,
            r matches Ok(v) ==> v.value == value && final(env)@ == old(env)@,
            r matches Err(e) ==> cast_err(old(env)@, final(env)@, CastKind::Number, e),
    {
        NapiAny::with_value(value).as_number(env)
    }
}

} // verus!
