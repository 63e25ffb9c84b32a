//! Arrays: wrappers over an array object, with indexed access.

use vstd::prelude::*;

use crate::env::NapiEnv;
use crate::result::NapiError;
use crate::result::NapiResult;
use crate::sys;
use crate::sys::allocated;
use crate::sys::array_obj;
use crate::sys::elem_set;
use crate::sys::env_extends;
use crate::sys::max_array_len;
use crate::sys::undefined_handle;
use crate::sys::with_elems;
use crate::sys::HostEnvView;
use crate::sys::SlotVal;
use crate::sys::SysStatus;
use crate::sys::SysValue;

use super::cast_accepts;
use super::cast_err;

use super::failed_with;
use super::AsNapiObject;
use super::CastKind;
use super::NapiAny;
use super::NapiString;
use super::NapiValue;

verus! {

/// The element vector of an array slot.
pub open spec fn array_elems(s: SlotVal) -> Seq<SysValue> {
    s->Object_0.elems
}

/// Wrapper for an array value.
#[derive(Clone, Copy, Debug)]
pub struct NapiArray {
    pub value: SysValue,
}

impl NapiArray {
    /// Allocates a fresh empty array.
    pub fn new(env: &mut NapiEnv) -> (r: NapiResult<Self>)
        requires
            old(env)@.wf(),
        ensures
            final(env)@.wf(),
            env_extends(old(env)@, final(env)@),
            r matches Ok(a) && a.valid(final(env)@) && allocated(
                old(env)@,
                final(env)@,
                a.sys_value(),
                SlotVal::Object(array_obj(Seq::empty())),
            ),
    {
        let (status, value) = sys::napi_create_array(&mut env.env);
        env.handle_status(status)?;
        Ok(Self { value })
    }

    /// Allocates an array of `len` elements, each holding the undefined
    /// singleton.
    pub fn with_len(env: &mut NapiEnv, len: usize) -> (r: NapiResult<Self>)
        requires
            old(env)@.wf(),
        ensures
            final(env)@.wf(),
            env_extends(old(env)@, final(env)@),
            len <= max_array_len() ==> (r matches Ok(a) && a.valid(final(env)@) && allocated(
                old(env)@,
                final(env)@,
                a.sys_value(),
                SlotVal::Object(array_obj(Seq::new(len as nat, |i: int| undefined_handle()))),
            )),
            len > max_array_len() ==> (r matches Err(e) && failed_with(
                old(env)@,
                final(env)@,
                e,
                SysStatus::InvalidArg,
            )),
    {
        let (status, value) = sys::napi_create_array_with_length(&mut env.env, len);
        env.handle_status(status)?;
        Ok(Self { value })
    }

    /// The array's length.
    pub fn len(&self, env: &mut NapiEnv) -> (r: NapiResult<u32>)
        requires
            old(env)@.wf(),
            self.valid(old(env)@),
        ensures
            final(env)@ == old(env)@,
            r matches Ok(n) && n == array_elems(old(env)@.value_of(self.sys_value())).len(),
    {
        let (status, result) = sys::napi_get_array_length(env.as_sys_env(), self.value);
        env.handle_status(status)?;
        Ok(result)
    }

    /// The array has no elements.
    pub fn is_empty(&self, env: &mut NapiEnv) -> (r: NapiResult<bool>)
        requires
            old(env)@.wf(),
            self.valid(old(env)@),
        ensures
            final(env)@ == old(env)@,
            r matches Ok(b) && b == (array_elems(old(env)@.value_of(self.sys_value())).len() == 0),
    {
        let len = self.len(env)?;
        Ok(len == 0)
    }

    /// Reads the element at `index`, reporting the undefined singleton
    /// beyond the length.
    pub fn get(&self, env: &mut NapiEnv, index: u32) -> (r: NapiResult<NapiAny>)
        requires
            old(env)@.wf(),
            self.valid(old(env)@),
        ensures
            final(env)@ == old(env)@,
            r matches Ok(a) && a.sys_value() == ({
                let elems = array_elems(old(env)@.value_of(self.sys_value()));
                if index < elems.len() {
                    elems[index as int]
                } else {
                    undefined_handle()
                }
            }),
    {
        self.as_napi_object().get_element(env, index)
    }

    /// Stores `value` at `index`, padding any gap with the undefined
    /// singleton.
    pub fn set<T: NapiValue>(&self, env: &mut NapiEnv, index: u32, value: &T) -> (r: NapiResult<()>)
        requires
            old(env)@.wf(),
            self.valid(old(env)@),
            old(env)@.valid(value.sys_value()),
            index as nat + 1 <= max_array_len(),
        ensures
            final(env)@.wf(),
            env_extends(old(env)@, final(env)@),
            r is Ok,
            final(env)@.slots == old(env)@.slots.update(
                self.sys_value().raw as int,
                SlotVal::Object(
                    with_elems(
                        old(env)@.value_of(self.sys_value())->Object_0,
                        elem_set(
                            array_elems(old(env)@.value_of(self.sys_value())),
                            index as nat,
                            value.sys_value(),
                        ),
                    ),
                ),
            ),
            final(env)@.pending == old(env)@.pending,
    {
        self.as_napi_object().set_element(env, index, value)
    }

    /// Unchecked construction from a handle already known to hold an
    /// array.
    pub fn construct(value: SysValue) -> (r: Self)
        ensures
            r.sys_value() == value,
    {
        Self { value }
    }
}

impl NapiValue for NapiArray {
    open spec fn sys_value(&self) -> SysValue {
        self.value
    }

    open spec fn valid(&self, e: HostEnvView) -> bool {
        e.valid(self.value) && crate::sys::slot_is_array(e.value_of(self.value))
    }

    proof fn valid_handle(&self, e: HostEnvView) {
    }

    fn from_sys_checked(env: &mut NapiEnv, value: SysValue) -> (r: NapiResult<Self>)
        ensures
            cast_accepts(CastKind::Array, old(env)@.value_of(value)) <==> r is Ok,
            r matches Ok(v) ==> v.value == value && final(env)@ == old(env)@,
            r matches Err(e) ==> cast_err(old(env)@, final(env)@, CastKind::Array, e),
    {
        if !NapiAny::with_value(value).is_array(env)? {
            let message = NapiString::from_str(env, "array expected")?;
            return Err(NapiError::type_error(env, &message));
        }
        Ok(Self { value })
    }

    fn as_sys_value(&self) -> (r: SysValue) {
        self.value
    }
}

impl AsNapiObject for NapiArray {

}

} // verus!
