//! The provider side of a session, as the manager sees it.
//!
//! A provider module is externally supplied and opaque; what the dispatch
//! logic reads of it is which of the fixed entry points the module exports.
//! A dispatched operation is described by a `ProviderCall`: the session
//! handle, the freshly generated request id, and the entry point to invoke.

use vstd::prelude::*;

verus! {

/// The fixed set of provider entry points.
#[derive(Clone, Copy, PartialEq, Eq, Structural, Debug)]
pub enum SpiOp {
    Open,
    Close,
    Lock,
    Unlock,
    Register,
    Deregister,
    Execute,
    GetInfo,
    CancelAsyncRequest,
    SetTraceLevel,
}

/// Which entry points a loaded provider module exports. A missing export is a
/// malformed or incompatible provider and dispatching through it fails with
/// `WFS_ERR_INTERNAL_ERROR`.
#[derive(Clone, Copy, PartialEq, Eq, Structural, Debug)]
pub struct ProviderExports {
    pub wfp_open: bool,
    pub wfp_close: bool,
    pub wfp_lock: bool,
    pub wfp_unlock: bool,
    pub wfp_register: bool,
    pub wfp_deregister: bool,
    pub wfp_execute: bool,
    pub wfp_get_info: bool,
    pub wfp_cancel_async_request: bool,
    pub wfp_set_trace_level: bool,
}

/// Whether the module exports the entry point for `op`.
pub open spec fn spec_has_export(e: ProviderExports, op: SpiOp) -> bool {
    match op {
        SpiOp::Open => e.wfp_open,
        SpiOp::Close => e.wfp_close,
        SpiOp::Lock => e.wfp_lock,
        SpiOp::Unlock => e.wfp_unlock,
        SpiOp::Register => e.wfp_register,
        SpiOp::Deregister => e.wfp_deregister,
        SpiOp::Execute => e.wfp_execute,
        SpiOp::GetInfo => e.wfp_get_info,
        SpiOp::CancelAsyncRequest => e.wfp_cancel_async_request,
        SpiOp::SetTraceLevel => e.wfp_set_trace_level,
    }
}

impl ProviderExports {
    /// A complete export surface.
    pub fn all() -> (r: ProviderExports)
        ensures
            forall|op: SpiOp| spec_has_export(r, op),
    {
        ProviderExports {
            wfp_open: true,
            wfp_close: true,
            wfp_lock: true,
            wfp_unlock: true,
            wfp_register: true,
            wfp_deregister: true,
            wfp_execute: true,
            wfp_get_info: true,
            wfp_cancel_async_request: true,
            wfp_set_trace_level: true,
        }
    }

    /// Whether the entry point for `op` is exported.
    pub fn has(&self, op: SpiOp) -> (r: bool)
        ensures
            r == spec_has_export(*self, op),
    {
        match op {
            SpiOp::Open => self.wfp_open,
            SpiOp::Close => self.wfp_close,
            SpiOp::Lock => self.wfp_lock,
            SpiOp::Unlock => self.wfp_unlock,
            SpiOp::Register => self.wfp_register,
            SpiOp::Deregister => self.wfp_deregister,
            SpiOp::Execute => self.wfp_execute,
            SpiOp::GetInfo => self.wfp_get_info,
            SpiOp::CancelAsyncRequest => self.wfp_cancel_async_request,
            SpiOp::SetTraceLevel => self.wfp_set_trace_level,
        }
    }
}

/// A loaded provider module: an opaque token naming the real module outside
/// the manager, and the exports the manager found in it.
#[derive(Clone, Copy, PartialEq, Eq, Structural, Debug)]
pub struct ProviderModule {
    pub module_id: u64,
    pub exports: ProviderExports,
}

/// One dispatched operation: which session, under which freshly generated
/// request id, and through which provider entry point.
#[derive(Clone, Copy, PartialEq, Eq, Structural, Debug)]
pub struct ProviderCall {
    pub h_service: u16,
    pub request_id: u32,
    pub op: SpiOp,
}

} // verus!
