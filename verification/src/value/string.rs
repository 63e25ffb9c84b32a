//! Strings: wrappers over a string slot, with UTF-8 construction and
//! extraction.

use vstd::prelude::*;
use vstd::utf8::encode_utf8;

use crate::env::NapiEnv;
use crate::result::NapiResult;
use crate::sys;
use crate::sys::allocated;
use crate::sys::env_extends;
use crate::sys::HostEnvView;
use crate::sys::SlotVal;
use crate::sys::SysValue;
use crate::text::latin1_decode;
use crate::text::latin1_encode;
use crate::text::utf16_decode;
use crate::text::utf16_encode;

use super::cast_accepts;
use super::cast_err;

use super::AsNapiObject;
use super::CastKind;
use super::NapiAny;
use super::NapiValue;

verus! {

/// The text payload of a string slot.
pub open spec fn text_payload(s: SlotVal) -> Seq<char> {
    s->Text_0
}

/// Wrapper for a string value.
#[derive(Clone, Copy, Debug)]
pub struct NapiString {
    pub value: SysValue,
}

impl NapiString {
    /// Allocates a string from UTF-8 text.
    pub fn from_str(env: &mut NapiEnv, value: &str) -> (r: NapiResult<Self>)
        requires
            old(env)@.wf(),
        ensures
            final(env)@.wf(),
            env_extends(old(env)@, final(env)@),
            r matches Ok(s) && s.valid(final(env)@) && allocated(
                old(env)@,
                final(env)@,
                s.sys_value(),
                SlotVal::Text(value@),
            ),
    {
        let (status, sys_value) = sys::napi_create_string_utf8(&mut env.env, value);
        env.handle_status(status)?;
        Ok(Self { value: sys_value })
    }

    /// Allocates a string from Latin-1 bytes.
    pub fn from_latin1(env: &mut NapiEnv, value: &[u8]) -> (r: NapiResult<Self>)
        requires
            old(env)@.wf(),
        ensures
            final(env)@.wf(),
            env_extends(old(env)@, final(env)@),
            r matches Ok(s) && s.valid(final(env)@) && allocated(
                old(env)@,
                final(env)@,
                s.sys_value(),
                SlotVal::Text(latin1_decode(value@)),
            ),
    {
        let (status, sys_value) = sys::napi_create_string_latin1(&mut env.env, value);
        env.handle_status(status)?;
        Ok(Self { value: sys_value })
    }

    /// Allocates a string from UTF-16 code units.
    pub fn from_utf16(env: &mut NapiEnv, value: &[u16]) -> (r: NapiResult<Self>)
        requires
            old(env)@.wf(),
        ensures
            final(env)@.wf(),
            env_extends(old(env)@, final(env)@),
            r matches Ok(s) && s.valid(final(env)@) && allocated(
                old(env)@,
                final(env)@,
                s.sys_value(),
                SlotVal::Text(utf16_decode(value@)),
            ),
    {
        let (status, sys_value) = sys::napi_create_string_utf16(&mut env.env, value);
        env.handle_status(status)?;
        Ok(Self { value: sys_value })
    }

    /// Extracts the text as an owned string.
    pub fn to_string(&self, env: &mut NapiEnv) -> (r: NapiResult<String>)
        requires
            old(env)@.wf(),
            self.valid(old(env)@),
        ensures
            final(env)@ == old(env)@,
            r matches Ok(out) && out@ == text_payload(old(env)@.value_of(self.sys_value())),
    {
        let (status, result) = sys::napi_get_value_string_utf8(env.as_sys_env(), self.value);
        env.handle_status(status)?;
        Ok(result)
    }

    /// Extracts the text as UTF-8 bytes.
    pub fn to_bytes(&self, env: &mut NapiEnv) -> (r: NapiResult<Vec<u8>>)
        requires
            old(env)@.wf(),
            self.valid(old(env)@),
        ensures
            final(env)@ == old(env)@,
            r matches Ok(out) && out@ == encode_utf8(
                text_payload(old(env)@.value_of(self.sys_value())),
            ),
    {
        let (status, result) = sys::napi_get_value_string_utf8(env.as_sys_env(), self.value);
        env.handle_status(status)?;
        Ok(result.as_str().as_bytes_vec())
    }

    /// Extracts the text as Latin-1 bytes, substituting a question mark
    /// for characters beyond the Latin-1 range.
    pub fn to_latin1(&self, env: &mut NapiEnv) -> (r: NapiResult<Vec<u8>>)
        requires
            old(env)@.wf(),
            self.valid(old(env)@),
        ensures
            final(env)@ == old(env)@,
            r matches Ok(out) && out@ == latin1_encode(
                text_payload(old(env)@.value_of(self.sys_value())),
            ),
    {
        let (status, result) = sys::napi_get_value_string_latin1(env.as_sys_env(), self.value);
        env.handle_status(status)?;
        Ok(result)
    }

    /// Extracts the text as UTF-16 code units.
    pub fn to_utf16(&self, env: &mut NapiEnv) -> (r: NapiResult<Vec<u16>>)
        requires
            old(env)@.wf(),
            self.valid(old(env)@),
        ensures
            final(env)@ == old(env)@,
            r matches Ok(out) && out@ == utf16_encode(
                text_payload(old(env)@.value_of(self.sys_value())),
            ),
    {
        let (status, result) = sys::napi_get_value_string_utf16(env.as_sys_env(), self.value);
        env.handle_status(status)?;
        Ok(result)
    }

    /// Unchecked construction from a handle already known to hold a
    /// string.
    pub fn construct(value: SysValue) -> (r: Self)
        ensures
            r.sys_value() == value,
    {
        Self { value }
    }
}

impl NapiValue for NapiString {
    open spec fn sys_value(&self) -> SysValue {
        self.value
    }

    open spec fn valid(&self, e: HostEnvView) -> bool {
        e.valid(self.value) && e.value_of(self.value) is Text
    }

    proof fn valid_handle(&self, e: HostEnvView) {
    }

    fn as_sys_value(&self) -> (r: SysValue) {
        self.value
    }

    fn from_sys_checked(env: &mut NapiEnv, value: SysValue) -> (r: NapiResult<Self>)
        ensures
            cast_accepts(CastKind::String, old(env)@.value_of(value)) <==> r is Ok,
            r matches Ok(v) ==> v.value == value && final(env)@ == old(env)@,
            r matches Err(e) ==> cast_err(old(env)@, final(env)@, CastKind::String, e),
    {
        NapiAny::with_value(value).as_string(env)
    }
}

impl AsNapiObject for NapiString {

}

} // verus!
