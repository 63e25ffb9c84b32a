//! The status-to-error translation layer: a typed error for every failing
//! native status, optionally carrying a message and a pending host
//! exception, plus constructors that materialize host-level error objects.

use vstd::prelude::*;

use crate::env::NapiEnv;
use crate::sys;
use crate::sys::allocated;
use crate::sys::env_extends;
use crate::sys::error_obj;
use crate::sys::first_alloc_handle;
use crate::sys::HostEnvView;
use crate::sys::SlotVal;
use crate::sys::SysObjectClass;
use crate::sys::SysStatus;
use crate::sys::SysValue;
use crate::value::NapiString;
use crate::value::NapiValue;

verus! {

/// The fixed taxonomy of error kinds: one per failing native status, plus
/// the kind for host error objects built by native code on purpose.
#[derive(Clone, Copy, Debug, PartialEq, Eq, Structural)]
pub enum NapiErrorKind {
    InvalidArg,
    ObjectExpected,
    StringExpected,
    NameExpected,
    FunctionExpected,
    NumberExpected,
    BooleanExpected,
    ArrayExpected,
    GenericFailure,
    PendingException,
    Cancelled,
    EscapeCalledTwice,
    ApplicationError,
}

/// A typed error: its kind, an optional human-readable message, and the
/// pending host exception that was attached when the status was
/// translated, if one was.
#[derive(Debug)]
pub struct NapiError {
    pub kind: NapiErrorKind,
    pub message: Option<String>,
    pub exception: Option<SysValue>,
}

pub type NapiResult<T> = Result<T, NapiError>;

/// The error kind a failing status translates to.
pub open spec fn error_kind_of(status: SysStatus) -> NapiErrorKind {
    match status {
        SysStatus::InvalidArg => NapiErrorKind::InvalidArg,
        SysStatus::ObjectExpected => NapiErrorKind::ObjectExpected,
        SysStatus::StringExpected => NapiErrorKind::StringExpected,
        SysStatus::NameExpected => NapiErrorKind::NameExpected,
        SysStatus::FunctionExpected => NapiErrorKind::FunctionExpected,
        SysStatus::NumberExpected => NapiErrorKind::NumberExpected,
        SysStatus::BooleanExpected => NapiErrorKind::BooleanExpected,
        SysStatus::ArrayExpected => NapiErrorKind::ArrayExpected,
        SysStatus::GenericFailure => NapiErrorKind::GenericFailure,
        SysStatus::PendingException => NapiErrorKind::PendingException,
        SysStatus::Cancelled => NapiErrorKind::Cancelled,
        SysStatus::EscapeCalledTwice => NapiErrorKind::EscapeCalledTwice,
        SysStatus::Success => NapiErrorKind::GenericFailure,
    }
}

/// The fixed description of each error kind.
pub open spec fn kind_description(kind: NapiErrorKind) -> Seq<char> {
    match kind {
        NapiErrorKind::InvalidArg => "NapiError: invalid argument"@,
        NapiErrorKind::ObjectExpected => "NapiError: object expected"@,
        NapiErrorKind::StringExpected => "NapiError: string expected"@,
        NapiErrorKind::NameExpected => "NapiError: name expected"@,
        NapiErrorKind::FunctionExpected => "NapiError: function expected"@,
        NapiErrorKind::NumberExpected => "NapiError: number expected"@,
        NapiErrorKind::BooleanExpected => "NapiError: boolean argument"@,
        NapiErrorKind::ArrayExpected => "NapiError: array expected"@,
        NapiErrorKind::GenericFailure => "NapiError: generic failure"@,
        NapiErrorKind::PendingException => "NapiError: pending exception"@,
        NapiErrorKind::Cancelled => "NapiError: cancelled"@,
        NapiErrorKind::EscapeCalledTwice => "NapiError: escape called twice"@,
        NapiErrorKind::ApplicationError => "NapiError: application error"@,
    }
}

impl NapiErrorKind {
    /// Classifies a failing native status.  A success status must never
    /// be classified: like an unknown code, it would mean an unreachable
    /// path was taken, an unrecoverable defect.
    pub fn from_napi_status(status: SysStatus) -> (r: NapiErrorKind)
        requires
            status != SysStatus::Success,
        ensures
            r == error_kind_of(status),
    {
        match status {
            SysStatus::InvalidArg => NapiErrorKind::InvalidArg,
            SysStatus::ObjectExpected => NapiErrorKind::ObjectExpected,
            SysStatus::StringExpected => NapiErrorKind::StringExpected,
            SysStatus::NameExpected => NapiErrorKind::NameExpected,
            SysStatus::FunctionExpected => NapiErrorKind::FunctionExpected,
            SysStatus::NumberExpected => NapiErrorKind::NumberExpected,
            SysStatus::BooleanExpected => NapiErrorKind::BooleanExpected,
            SysStatus::ArrayExpected => NapiErrorKind::ArrayExpected,
            SysStatus::GenericFailure => NapiErrorKind::GenericFailure,
            SysStatus::PendingException => NapiErrorKind::PendingException,
            SysStatus::Cancelled => NapiErrorKind::Cancelled,
            SysStatus::EscapeCalledTwice => NapiErrorKind::EscapeCalledTwice,
            SysStatus::Success => {
                proof {
                    assert(false);
                }
                NapiErrorKind::GenericFailure
            },
        }
    }
}

impl NapiError {
    /// An error is well-formed under an environment when its attached
    /// exception, if any, is a valid handle there.
    pub open spec fn wf(self, e: HostEnvView) -> bool {
        match self.exception {
            Some(x) => e.valid(x),
            None => true,
        }
    }

    /// The text the error displays as.
    pub open spec fn display_view(&self) -> Seq<char> {
        kind_description(self.kind) + (match self.message {
            Some(m) => " ("@ + m@ + ")"@,
            None => Seq::<char>::empty(),
        }) + (if self.exception is Some {
            ", JavaScript exception attached"@
        } else {
            Seq::<char>::empty()
        })
    }

    /// The fixed description of this error's kind.
    pub fn description(&self) -> (r: &'static str)
        ensures
            r@ == kind_description(self.kind),
    {
        match self.kind {
            NapiErrorKind::InvalidArg => "NapiError: invalid argument",
            NapiErrorKind::ObjectExpected => "NapiError: object expected",
            NapiErrorKind::StringExpected => "NapiError: string expected",
            NapiErrorKind::NameExpected => "NapiError: name expected",
            NapiErrorKind::FunctionExpected => "NapiError: function expected",
            NapiErrorKind::NumberExpected => "NapiError: number expected",
            NapiErrorKind::BooleanExpected => "NapiError: boolean argument",
            NapiErrorKind::ArrayExpected => "NapiError: array expected",
            NapiErrorKind::GenericFailure => "NapiError: generic failure",
            NapiErrorKind::PendingException => "NapiError: pending exception",
            NapiErrorKind::Cancelled => "NapiError: cancelled",
            NapiErrorKind::EscapeCalledTwice => "NapiError: escape called twice",
            NapiErrorKind::ApplicationError => "NapiError: application error",
        }
    }

    /// Renders the error's display text: the kind's description, the
    /// message in parentheses when present, and a note when a host
    /// exception is attached.
    pub fn display_string(&self) -> (r: String)
        ensures
            r@ == self.display_view(),
    {
        let mut s = String::from_str(self.description());
        match &self.message {
            Some(m) => {
                s.append(" (");
                s.append(m.as_str());
                s.append(")");
            },
            None => {},
        }
        if self.exception.is_some() {
            s.append(", JavaScript exception attached");
        }
        proof {
            assert(s@ =~= self.display_view());
        }
        s
    }

    /// Asks the runtime for a host error object carrying the given
    /// message, classified as an application error with that object
    /// attached as its exception.
    pub fn error(env: &mut NapiEnv, message: &NapiString) -> (r: NapiError)
        requires
            old(env)@.wf(),
            message.valid(old(env)@),
        ensures
            final(env)@.wf(),
            env_extends(old(env)@, final(env)@),
            final(env)@.pending == old(env)@.pending,
            allocated(
                old(env)@,
                final(env)@,
                first_alloc_handle(old(env)@),
                SlotVal::Object(error_obj(SysObjectClass::ErrorObject, message.sys_value())),
            ),
            r.kind == NapiErrorKind::ApplicationError,
            r.message is None,
            r.exception == Some(first_alloc_handle(old(env)@)),
    {
        let (status, exception) = sys::napi_create_error(&mut env.env, message.as_sys_value());
        if let Err(error) = env.handle_status(status) {
            return error;
        }
        NapiError { kind: NapiErrorKind::ApplicationError, message: None, exception: Some(exception) }
    }

    /// As `error`, for a host type-error object.
    pub fn type_error(env: &mut NapiEnv, message: &NapiString) -> (r: NapiError)
        requires
            old(env)@.wf(),
            message.valid(old(env)@),
        ensures
            final(env)@.wf(),
            env_extends(old(env)@, final(env)@),
            final(env)@.pending == old(env)@.pending,
            allocated(
                old(env)@,
                final(env)@,
                first_alloc_handle(old(env)@),
                SlotVal::Object(error_obj(SysObjectClass::TypeErrorObject, message.sys_value())),
            ),
            r.kind == NapiErrorKind::ApplicationError,
            r.message is None,
            r.exception == Some(first_alloc_handle(old(env)@)),
    {
        let (status, exception) = sys::napi_create_type_error(&mut env.env, message.as_sys_value());
        if let Err(error) = env.handle_status(status) {
            return error;
        }
        NapiError { kind: NapiErrorKind::ApplicationError, message: None, exception: Some(exception) }
    }

    /// As `error`, for a host range-error object.
    pub fn range_error(env: &mut NapiEnv, message: &NapiString) -> (r: NapiError)
        requires
            old(env)@.wf(),
            message.valid(old(env)@),
        ensures
            final(env)@.wf(),
            env_extends(old(env)@, final(env)@),
            final(env)@.pending == old(env)@.pending,
            allocated(
                old(env)@,
                final(env)@,
                first_alloc_handle(old(env)@),
                SlotVal::Object(error_obj(SysObjectClass::RangeErrorObject, message.sys_value())),
            ),
            r.kind == NapiErrorKind::ApplicationError,
            r.message is None,
            r.exception == Some(first_alloc_handle(old(env)@)),
    {
        let (status, exception) = sys::napi_create_range_error(&mut env.env, message.as_sys_value());
        if let Err(error) = env.handle_status(status) {
            return error;
        }
        NapiError { kind: NapiErrorKind::ApplicationError, message: None, exception: Some(exception) }
    }
}

} // verus!
