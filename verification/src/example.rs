//! Reference callbacks exercising the derivation layer end to end: a
//! no-argument record, a two-number record, and the classic addition
//! handler behind a native-signature entry point.

use vstd::prelude::*;

use crate::args::cb_args;
use crate::args::NapiArgs;
use crate::callback::complete_callback;
use crate::callback::NapiCallback;
use crate::env::NapiEnv;
use crate::result::NapiResult;
use crate::sys::allocated;
use crate::sys::env_extends;
use crate::sys::error_allocated;
use crate::sys::second_alloc_handle;
use crate::sys::undefined_handle;
use crate::sys::CallInfo;
use crate::sys::HostEnvView;
use crate::sys::SlotVal;
use crate::sys::SysObjectClass;
use crate::sys::SysValue;
use crate::value::cast_err;
use crate::value::CastKind;
use crate::value::NapiNumber;
use crate::value::number_payload;
use crate::value::NapiValue;

verus! {

/// Argument record of a callback that takes no arguments.
#[derive(Debug)]
pub struct HelloArgs;

impl NapiArgs for HelloArgs {
    open spec fn arity() -> nat {
        0
    }

    open spec fn valid(&self, e: HostEnvView) -> bool {
        true
    }

    fn from_cb_info(env: &mut NapiEnv, cb_info: &CallInfo) -> (r: NapiResult<Self>)
        ensures
            cb_info@.len() == 0 ==> (r is Ok && final(env)@ == old(env)@),
    {
        let _argv = cb_args(env, cb_info, 0)?;
        Ok(HelloArgs)
    }
}

/// Argument record of a callback that takes exactly two numbers.
#[derive(Debug)]
pub struct AddArgs {
    pub first: NapiNumber,
    pub second: NapiNumber,
}

impl NapiArgs for AddArgs {
    open spec fn arity() -> nat {
        2
    }

    open spec fn valid(&self, e: HostEnvView) -> bool {
        self.first.valid(e) && self.second.valid(e)
    }

    fn from_cb_info(env: &mut NapiEnv, cb_info: &CallInfo) -> (r: NapiResult<Self>)
        ensures
            cb_info@.len() == 2 ==> {
                let a0 = old(env)@.value_of(cb_info@[0]);
                let a1 = old(env)@.value_of(cb_info@[1]);
                &&& ((a0 is Number && a1 is Number) <==> r is Ok)
                &&& (r matches Ok(args) ==> args.first.value == cb_info@[0] && args.second.value
                    == cb_info@[1] && final(env)@ == old(env)@)
                &&& (!(a0 is Number) ==> (r matches Err(e) && cast_err(
                    old(env)@,
                    final(env)@,
                    CastKind::Number,
                    e,
                )))
                &&& ((a0 is Number && !(a1 is Number)) ==> (r matches Err(e) && cast_err(
                    old(env)@,
                    final(env)@,
                    CastKind::Number,
                    e,
                )))
            },
    {
        let argv = cb_args(env, cb_info, 2)?;
        let first = NapiNumber::from_sys_checked(env, argv[0])?;
        let second = NapiNumber::from_sys_checked(env, argv[1])?;
        Ok(AddArgs { first, second })
    }
}

/// Adds the two numbers of an `AddArgs` record, reading each as a signed
/// 32-bit integer and allocating a number holding their exact sum.
pub fn add(env: &mut NapiEnv, args: &AddArgs) -> (r: NapiResult<NapiNumber>)
    requires
        old(env)@.wf(),
        args.valid(old(env)@),
    ensures
        final(env)@.wf(),
        env_extends(old(env)@, final(env)@),
        r matches Ok(n) && allocated(
            old(env)@,
            final(env)@,
            n.sys_value(),
            SlotVal::Number(
                (number_payload(old(env)@.value_of(args.first.value)) as i32 as i64
                    + number_payload(old(env)@.value_of(args.second.value)) as i32 as i64) as i64,
            ),
        ),
{
    let first = args.first.to_i32(env)?;
    let second = args.second.to_i32(env)?;
    NapiNumber::from_i64(env, first as i64 + second as i64)
}

/// The addition handler, as a registered callback.
pub struct ExampleAdd;

impl NapiCallback for ExampleAdd {
    type Args = AddArgs;

    type Ret = NapiNumber;

    fn handle(&self, env: &mut NapiEnv, args: &AddArgs) -> (r: NapiResult<NapiNumber>) {
        crate::example::add(env, args)
    }
}

/// Native-signature entry point of the addition callback, written out as
/// the adapter expands for it: derive, invoke on success, complete.
pub fn example_add(env: &mut NapiEnv, cb_info: &CallInfo) -> (r: SysValue)
    requires
        old(env)@.wf(),
        forall|i: int| 0 <= i < cb_info@.len() ==> old(env)@.valid(#[trigger] cb_info@[i]),
    ensures
        final(env)@.wf(),
        env_extends(old(env)@, final(env)@),
        cb_info@.len() != 2 ==> {
            &&& r == undefined_handle()
            &&& error_allocated(
                old(env)@,
                final(env)@,
                SysObjectClass::TypeErrorObject,
                crate::args::arity_message(2, cb_info@.len()),
                second_alloc_handle(old(env)@),
            )
            &&& final(env)@.pending == Some(second_alloc_handle(old(env)@))
        },
        cb_info@.len() == 2 ==> {
            let a0 = old(env)@.value_of(cb_info@[0]);
            let a1 = old(env)@.value_of(cb_info@[1]);
            &&& (a0 is Number && a1 is Number ==> {
                &&& allocated(
                    old(env)@,
                    final(env)@,
                    r,
                    SlotVal::Number(
                        (a0->Number_0 as i32 as i64 + a1->Number_0 as i32 as i64) as i64,
                    ),
                )
                &&& final(env)@.pending == old(env)@.pending
            })
            &&& (!(a0 is Number && a1 is Number) ==> {
                &&& r == undefined_handle()
                &&& error_allocated(
                    old(env)@,
                    final(env)@,
                    SysObjectClass::TypeErrorObject,
                    "number expected"@,
                    second_alloc_handle(old(env)@),
                )
                &&& final(env)@.pending == Some(second_alloc_handle(old(env)@))
            })
        },
{
    let derived = AddArgs::from_cb_info(env, cb_info);
    let result = match derived {
        Ok(args) => {
            match crate::example::add(env, &args) {
                Ok(value) => Ok(value.as_sys_value()),
                Err(error) => Err(error),
            }
        },
        Err(error) => Err(error),
    };
    complete_callback(env, result)
}

} // verus!
