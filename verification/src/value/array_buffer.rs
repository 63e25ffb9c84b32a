//! Raw byte buffers: wrappers over an array-buffer object, carrying the
//! buffer's length alongside the handle.

use vstd::prelude::*;

use crate::env::NapiEnv;
use crate::result::NapiError;
use crate::result::NapiResult;
use crate::sys;
use crate::sys::allocated;
use crate::sys::buffer_obj;
use crate::sys::env_extends;
use crate::sys::HostEnvView;
use crate::sys::SlotVal;
use crate::sys::SysObjectClass;
use crate::sys::SysValue;

use super::cast_accepts;
use super::cast_err;
use super::AsNapiObject;
use super::CastKind;
use super::NapiAny;
use super::NapiString;
use super::NapiValue;

verus! {

/// Wrapper for a raw byte buffer.  The wrapper remembers the buffer's
/// length, so length queries need no environment; validity ties it to
/// the byte vector in the slot.
#[derive(Clone, Copy, Debug)]
pub struct NapiArrayBuffer {
    pub value: SysValue,
    pub len: usize,
}

impl NapiArrayBuffer {
    /// Allocates a zero-filled raw byte buffer of the given length.
    pub fn new(env: &mut NapiEnv, len: usize) -> (r: NapiResult<Self>)
        requires
            old(env)@.wf(),
        ensures
            final(env)@.wf(),
            env_extends(old(env)@, final(env)@),
            r matches Ok(b) && b.valid(final(env)@) && b.len == len && allocated(
                old(env)@,
                final(env)@,
                b.sys_value(),
                SlotVal::Object(
                    buffer_obj(SysObjectClass::ArrayBuffer, Seq::new(len as nat, |i: int| 0u8)),
                ),
            ),
    {
        let (status, value) = sys::napi_create_arraybuffer(&mut env.env, len);
        env.handle_status(status)?;
        Ok(Self { value, len })
    }

    /// The buffer's length in bytes.
    pub fn len(&self) -> (r: usize)
        ensures
            r == self.len,
    {
        self.len
    }

    /// The buffer holds no bytes.
    pub fn is_empty(&self) -> (r: bool)
        ensures
            r == (self.len == 0),
    {
        self.len == 0
    }

    /// Copies the buffer's bytes out, as reading the mapped slice does.
    pub fn as_bytes(&self, env: &mut NapiEnv) -> (r: NapiResult<Vec<u8>>)
        requires
            old(env)@.wf(),
            self.valid(old(env)@),
        ensures
            final(env)@ == old(env)@,
            r matches Ok(out) && out@ == old(env)@.value_of(self.sys_value())->Object_0.bytes,
    {
        let (status, result) = sys::napi_buffer_read(env.as_sys_env(), self.value);
        env.handle_status(status)?;
        Ok(result)
    }

    /// Overwrites one byte in place, as writing through the mapped slice
    /// does.
    pub fn write_byte(&self, env: &mut NapiEnv, index: usize, byte: u8) -> (r: NapiResult<()>)
        requires
            old(env)@.wf(),
            self.valid(old(env)@),
            index < self.len,
        ensures
            final(env)@.wf(),
            env_extends(old(env)@, final(env)@),
            r is Ok,
            final(env)@.pending == old(env)@.pending,
            ({
                let o = old(env)@.value_of(self.sys_value())->Object_0;
                final(env)@.slots == old(env)@.slots.update(
                    self.sys_value().raw as int,
                    SlotVal::Object(
                        crate::sys::ObjVal {
                            class: o.class,
                            bytes: o.bytes.update(index as int, byte),
                            props: o.props,
                            elems: o.elems,
                        },
                    ),
                )
            }),
    {
        let status = sys::napi_buffer_write_byte(&mut env.env, self.value, index, byte);
        env.handle_status(status)
    }
}

impl NapiValue for NapiArrayBuffer {
    open spec fn sys_value(&self) -> SysValue {
        self.value
    }

    open spec fn valid(&self, e: HostEnvView) -> bool {
        &&& e.valid(self.value)
        &&& e.value_of(self.value) matches SlotVal::Object(o) && o.class
            == SysObjectClass::ArrayBuffer && o.bytes.len() == self.len
    }

    proof fn valid_handle(&self, e: HostEnvView) {
    }

    fn as_sys_value(&self) -> (r: SysValue) {
        self.value
    }

    fn from_sys_checked(env: &mut NapiEnv, value: SysValue) -> (r: NapiResult<Self>)
        ensures
            cast_accepts(CastKind::ArrayBuffer, old(env)@.value_of(value)) <==> r is Ok,
            r matches Ok(v) ==> v.value == value && final(env)@ == old(env)@,
            r matches Err(e) ==> cast_err(old(env)@, final(env)@, CastKind::ArrayBuffer, e),
    {
        if !NapiAny::with_value(value).is_arraybuffer(env)? {
            let message = NapiString::from_str(env, "arraybuffer expected")?;
            return Err(NapiError::type_error(env, &message));
        }
        let (status, len) = sys::napi_get_arraybuffer_info(env.as_sys_env(), value);
        env.handle_status(status)?;
        Ok(Self { value, len })
    }
}

impl AsNapiObject for NapiArrayBuffer {

}

} // verus!
