//! The argument derivation protocol: converting a call's raw argument
//! vector into a strongly typed, arity-checked argument record.

use vstd::prelude::*;

use crate::env::NapiEnv;
use crate::result::NapiError;
use crate::result::NapiErrorKind;
use crate::result::NapiResult;
use crate::sys;
use crate::sys::env_extends;
use crate::sys::error_allocated;
use crate::sys::second_alloc_handle;
use crate::sys::CallInfo;
use crate::sys::HostEnvView;
use crate::sys::SysObjectClass;
use crate::sys::SysValue;
use crate::text::dec_digits;
use crate::text::usize_to_dec;
use crate::value::NapiString;

verus! {

/// The message an arity mismatch reports.
pub open spec fn arity_message(expected: nat, got: nat) -> Seq<char> {
    "Expected "@ + dec_digits(expected) + " arguments, but got "@ + dec_digits(got)
}

/// What a failing arity check guarantees: a type error whose attached
/// host exception is a fresh type-error object carrying the exact
/// mismatch message.
pub open spec fn arity_err(
    pre: HostEnvView,
    post: HostEnvView,
    expected: nat,
    got: nat,
    e: NapiError,
) -> bool {
    &&& e.kind == NapiErrorKind::ApplicationError
    &&& e.message is None
    &&& e.exception == Some(second_alloc_handle(pre))
    &&& error_allocated(
        pre,
        post,
        SysObjectClass::TypeErrorObject,
        arity_message(expected, got),
        second_alloc_handle(pre),
    )
    &&& post.pending == pre.pending
}

/// Renders the arity-mismatch message.
fn render_arity_message(expected: usize, got: usize) -> (s: String)
    ensures
        s@ == arity_message(expected as nat, got as nat),
{
    let mut s = String::from_str("Expected ");
    s.append(usize_to_dec(expected).as_str());
    s.append(" arguments, but got ");
    s.append(usize_to_dec(got).as_str());
    proof {
        assert(s@ =~= arity_message(expected as nat, got as nat));
    }
    s
}

/// The shared head of every derived record's construction: reads the
/// call's raw argument vector, and fails with the exact mismatch message
/// unless the call supplied exactly `expected` arguments.
pub fn cb_args(env: &mut NapiEnv, cb_info: &CallInfo, expected: usize) -> (r: NapiResult<
    Vec<SysValue>,
>)
    requires
        old(env)@.wf(),
    ensures
        final(env)@.wf(),
        env_extends(old(env)@, final(env)@),
        cb_info@.len() == expected ==> (r matches Ok(argv) && argv@ == cb_info@ && final(env)@
            == old(env)@),
        cb_info@.len() != expected ==> (r matches Err(e) && arity_err(
            old(env)@,
            final(env)@,
            expected as nat,
            cb_info@.len(),
            e,
        )),
{
    let (status, argc, argv) = sys::napi_get_cb_info(env.as_sys_env(), cb_info, expected);
    env.handle_status(status)?;
    if argc != expected {
        let rendered = render_arity_message(expected, argc);
        let message = NapiString::from_str(env, rendered.as_str())?;
        return Err(NapiError::type_error(env, &message));
    }
    proof {
        assert(argv@ =~= cb_info@);
    }
    Ok(argv)
}

/// A fixed-shape argument record derivable from a callback's raw argument
/// vector: strict arity, then a checked downcast per field in declaration
/// order, short-circuiting on the first failure.
pub trait NapiArgs: Sized {
    /// The record's declared arity.
    spec fn arity() -> nat;

    /// Every field wrapper is meaningful under `e`.
    spec fn valid(&self, e: HostEnvView) -> bool;

    /// Derives the record from the call's raw argument vector.
    fn from_cb_info(env: &mut NapiEnv, cb_info: &CallInfo) -> (r: NapiResult<Self>)
        requires
            old(env)@.wf(),
            forall|i: int| 0 <= i < cb_info@.len() ==> old(env)@.valid(#[trigger] cb_info@[i]),
        ensures
            final(env)@.wf(),
            env_extends(old(env)@, final(env)@),
            r matches Ok(a) ==> a.valid(final(env)@) && cb_info@.len() == Self::arity(),
            r matches Err(e) ==> e.wf(final(env)@),
            cb_info@.len() != Self::arity() ==> (r matches Err(e) && arity_err(
                old(env)@,
                final(env)@,
                Self::arity(),
                cb_info@.len(),
                e,
            )),
    ;
}

} // verus!
