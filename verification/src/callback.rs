//! The callback entry-point adapter: wraps a handler with the native
//! calling convention, so argument derivation runs first and every error
//! becomes a thrown host exception rather than a leaked failure.

use vstd::prelude::*;

use crate::args::NapiArgs;
use crate::env::NapiEnv;
use crate::result::NapiResult;
use crate::sys;
use crate::sys::env_extends;
use crate::sys::error_allocated;
use crate::sys::second_alloc_handle;
use crate::sys::undefined_handle;
use crate::sys::CallInfo;
use crate::sys::SysObjectClass;
use crate::sys::SysValue;
use crate::value::NapiValue;

verus! {

/// A registered native callback: its argument record, its success type,
/// and the handler itself.  An implementation must leave the environment
/// well-formed and extended, as every operation of this library does.
pub trait NapiCallback {
    type Args: NapiArgs;

    type Ret: NapiValue;

    /// The user handler, invoked only after derivation succeeded.
    fn handle(&self, env: &mut NapiEnv, args: &Self::Args) -> (r: NapiResult<Self::Ret>)
        requires
            old(env)@.wf(),
            args.valid(old(env)@),
        ensures
            final(env)@.wf(),
            env_extends(old(env)@, final(env)@),
            r matches Ok(v) ==> final(env)@.valid(v.sys_value()),
            r matches Err(e) ==> e.wf(final(env)@),
    ;
}

/// Converts a handler outcome into the native return value.  A success
/// hands its raw handle straight back.  An error becomes a thrown host
/// exception — the attached exception object itself when one is there,
/// else a fresh error object carrying the error's display text — and the
/// undefined singleton is returned, since the thrown exception is what
/// the runtime will observe.
pub fn complete_callback(env: &mut NapiEnv, result: NapiResult<SysValue>) -> (r: SysValue)
    requires
        old(env)@.wf(),
        result matches Ok(v) ==> old(env)@.valid(v),
        result matches Err(e) ==> e.wf(old(env)@),
    ensures
        final(env)@.wf(),
        env_extends(old(env)@, final(env)@),
        match result {
            Ok(v) => r == v && final(env)@ == old(env)@,
            Err(e) => r == undefined_handle() && match e.exception {
                Some(x) => final(env)@.slots == old(env)@.slots && final(env)@.pending == Some(x),
                None => {
                    &&& error_allocated(
                        old(env)@,
                        final(env)@,
                        SysObjectClass::ErrorObject,
                        e.display_view(),
                        second_alloc_handle(old(env)@),
                    )
                    &&& final(env)@.pending == Some(second_alloc_handle(old(env)@))
                },
            },
        },
{
    match result {
        Ok(value) => value,
        Err(error) => {
            match error.exception {
                Some(exception) => {
                    let _throw_status = sys::napi_throw(&mut env.env, exception);
                },
                None => {
                    let message = error.display_string();
                    let _throw_status = sys::napi_throw_error(&mut env.env, message.as_str());
                },
            }
            let (_undefined_status, undefined) = sys::napi_get_undefined(env.as_sys_env());
            undefined
        },
    }
}

/// The adapter around a registered callback: derive the arguments, invoke
/// the handler only on success, and complete with either its value or a
/// thrown exception.  An arity mismatch throws the exact mismatch message
/// and never reaches the handler.
pub fn napi_callback<C: NapiCallback>(callback: &C, env: &mut NapiEnv, cb_info: &CallInfo) -> (r:
    SysValue)
    requires
        old(env)@.wf(),
        forall|i: int| 0 <= i < cb_info@.len() ==> old(env)@.valid(#[trigger] cb_info@[i]),
    ensures
        final(env)@.wf(),
        env_extends(old(env)@, final(env)@),
        final(env)@.valid(r) || r == undefined_handle(),
        cb_info@.len() != <C::Args as NapiArgs>::arity() ==> {
            &&& r == undefined_handle()
            &&& error_allocated(
                old(env)@,
                final(env)@,
                SysObjectClass::TypeErrorObject,
                crate::args::arity_message(<C::Args as NapiArgs>::arity(), cb_info@.len()),
                second_alloc_handle(old(env)@),
            )
            &&& final(env)@.pending == Some(second_alloc_handle(old(env)@))
        },
{
    let derived = C::Args::from_cb_info(env, cb_info);
    let result = match derived {
        Ok(args) => {
            match callback.handle(env, &args) {
                Ok(value) => Ok(value.as_sys_value()),
                Err(error) => Err(error),
            }
        },
        Err(error) => Err(error),
    };
    complete_callback(env, result)
}

} // verus!
