//! The environment handle: the single per-call capability every operation
//! threads through, and the one choke point where native status codes are
//! translated into typed errors.

use vstd::prelude::*;

use crate::result::error_kind_of;
use crate::result::NapiError;
use crate::result::NapiResult;
use crate::sys;
use crate::sys::env_extends;
use crate::sys::HostEnv;
use crate::sys::HostEnvView;
use crate::sys::SysStatus;
use crate::sys::SysValue;

verus! {

/// Wraps the raw environment.  Every value operation takes it explicitly;
/// a value wrapper is only meaningful under the environment that issued
/// its handle.
pub struct NapiEnv {
    pub env: HostEnv,
}

impl View for NapiEnv {
    type V = HostEnvView;

    open spec fn view(&self) -> HostEnvView {
        self.env@
    }
}

impl NapiEnv {
    /// Boots a fresh model environment, as the host runtime does for each
    /// call-in.
    pub fn new() -> (r: NapiEnv)
        ensures
            r@.wf(),
            r@.pending is None,
    {
        NapiEnv { env: HostEnv::new() }
    }

    /// Wraps a raw environment handed over by the runtime.
    pub fn from_sys(env: HostEnv) -> (r: NapiEnv)
        ensures
            r@ == env@,
    {
        NapiEnv { env }
    }

    /// The raw environment, for handing back into native calls.
    pub fn as_sys_env(&self) -> (r: &HostEnv)
        ensures
            r@ == self@,
    {
        &self.env
    }

    /// Translates a native status: success passes through, and any
    /// failure becomes a typed error.  When the runtime holds a pending
    /// exception it is cleared here and attached to the error, so that
    /// exception propagation is handed to native code explicitly instead
    /// of corrupting later native calls.
    pub fn handle_status(&mut self, status: SysStatus) -> (r: NapiResult<()>)
        requires
            old(self)@.wf(),
        ensures
            final(self)@.wf(),
            env_extends(old(self)@, final(self)@),
            final(self)@.slots == old(self)@.slots,
            status == SysStatus::Success ==> r is Ok && final(self)@ == old(self)@,
            status != SysStatus::Success ==> {
                &&& r matches Err(e)
                &&& e.kind == error_kind_of(status)
                &&& e.message is None
                &&& e.exception == old(self)@.pending
                &&& final(self)@.pending is None
            },
    {
        if matches!(status, SysStatus::Success) {
            return Ok(());
        }
        let (_info_status, error_message) = sys::napi_get_last_error_info(&self.env);
        let exception = self.get_pending_exception_for_status(status);
        Err(
            NapiError {
                kind: crate::result::NapiErrorKind::from_napi_status(status),
                message: error_message,
                exception,
            },
        )
    }

    /// Queries, and clears, the runtime's pending exception while a
    /// failing status is being translated.  A pending-exception status
    /// already implies one is pending, so the query is skipped then.
    fn get_pending_exception_for_status(&mut self, status: SysStatus) -> (r: Option<SysValue>)
        requires
            old(self)@.wf(),
        ensures
            final(self)@.wf(),
            env_extends(old(self)@, final(self)@),
            final(self)@.slots == old(self)@.slots,
            r == old(self)@.pending,
            final(self)@.pending is None,
    {
        let mut is_exception_pending = true;
        if !matches!(status, SysStatus::PendingException) {
            let (_query_status, pending) = sys::napi_is_exception_pending(&self.env);
            is_exception_pending = pending;
        }
        if !is_exception_pending {
            return None;
        }
        let (_clear_status, exception) = sys::napi_get_and_clear_last_exception(&mut self.env);
        exception
    }
}

} // verus!
