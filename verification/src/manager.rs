//! The manager facade: the public entry-point surface.
//!
//! Every entry point first checks the global preconditions — the manager must
//! be started, and most calls are refused while the calling thread is inside
//! a blocking wait — and then works on the handle tables, the session table,
//! or the blocked-thread set. Opening a service resolves the provider module
//! path through the configuration, publishes a fully initialized session, and
//! hands the caller the provider call to make; every other operation resolves
//! its session and dispatches under a freshly generated request id. The
//! synchronous bridge marks the calling thread blocked, dispatches the
//! asynchronous form, and then steps a cooperative poll loop until the call's
//! completion record arrives or the wait is canceled.

use vstd::prelude::*;

use crate::bridge::{
    is_blocked, spec_block, spec_request_cancel, spec_sync_step, spec_unblock, BlockedThreadSet,
    CompletionRecord, SyncStep,
};
use crate::config::{spec_resolve, Config};
use crate::errors::{
    WFS_ERR_ALREADY_STARTED, WFS_ERR_INTERNAL_ERROR, WFS_ERR_INVALID_HSERVICE,
    WFS_ERR_NO_BLOCKING_CALL, WFS_ERR_NOT_STARTED, WFS_ERR_OP_IN_PROGRESS, WFS_SUCCESS,
};
use crate::handles::{
    spec_create_app_handle, spec_destroy_app_handle, AppHandleTable, APP_HANDLE_SLOTS,
};
use crate::provider::{spec_has_export, ProviderCall, ProviderModule, SpiOp};
use crate::seq_find::find_first;
use crate::session::{
    session_live, session_slot_free, spec_dispatch, spec_release, spec_release_module,
    spec_set_trace_level, Session, SessionTable, SESSION_SLOTS,
};
use crate::version::{spec_range_value, spec_version_value, Version, VersionRange};

verus! {

/// The packed version range of the session API this manager speaks toward
/// providers: 3.00 up to 3.30.
pub const SPI_VERSION_RANGE: u32 = 0x0003_1E03;

/// `SPI_VERSION_RANGE` is exactly the packed range of versions 3.00 to 3.30.
pub proof fn lemma_spi_version_range_packed()
    ensures
        SPI_VERSION_RANGE == spec_range_value(
            VersionRange {
                start: Version { major: 3, minor: 0 },
                end: Version { major: 3, minor: 30 },
            },
        ),
{
    assert((((((0u8 as u16) << 8) | (3u8 as u16)) as u32) << 16) | ((((30u8 as u16) << 8) | (
    3u8 as u16)) as u32) == 0x0003_1E03u32) by (bit_vector);
}

/// What a successful start-up hands back: the manager's own version, the
/// lowest and highest API versions it accepts, and a description.
#[derive(Debug)]
pub struct WfsVersion {
    pub version: u16,
    pub low_version: u16,
    pub high_version: u16,
    pub description: String,
}

/// What a successful open hands the caller: the session handle, the request
/// id under which the provider's open entry must be invoked, and the packed
/// version range to negotiate with.
#[derive(Clone, Copy, PartialEq, Eq, Structural, Debug)]
pub struct OpenCall {
    pub h_service: u16,
    pub request_id: u32,
    pub spi_versions: u32,
}

/// The mathematical model of the whole manager.
pub ghost struct ManagerModel {
    pub started: bool,
    pub sessions: Seq<Option<Session>>,
    pub app_handles: Seq<bool>,
    pub blocked: Seq<crate::bridge::BlockedThread>,
    pub hook: u64,
}

/// The model with its session table replaced.
pub open spec fn with_sessions(m: ManagerModel, s: Seq<Option<Session>>) -> ManagerModel {
    ManagerModel {
        started: m.started,
        sessions: s,
        app_handles: m.app_handles,
        blocked: m.blocked,
        hook: m.hook,
    }
}

/// The model with its application-handle table replaced.
pub open spec fn with_app_handles(m: ManagerModel, a: Seq<bool>) -> ManagerModel {
    ManagerModel {
        started: m.started,
        sessions: m.sessions,
        app_handles: a,
        blocked: m.blocked,
        hook: m.hook,
    }
}

/// The model with its blocked-thread set replaced.
pub open spec fn with_blocked(m: ManagerModel, b: Seq<crate::bridge::BlockedThread>) -> ManagerModel {
    ManagerModel {
        started: m.started,
        sessions: m.sessions,
        app_handles: m.app_handles,
        blocked: b,
        hook: m.hook,
    }
}

/// The model of a manager that is not started: every table empty.
pub open spec fn fresh_model() -> ManagerModel {
    ManagerModel {
        started: false,
        sessions: Seq::new(SESSION_SLOTS as nat, |i: int| None),
        app_handles: Seq::new(APP_HANDLE_SLOTS as nat, |i: int| false),
        blocked: Seq::empty(),
        hook: 0,
    }
}

/// Whether publishing a session for `module` succeeds: the module must
/// export its open entry and a session slot must be free.
pub open spec fn spec_open_publish(
    s: Seq<Option<Session>>,
    module: ProviderModule,
    trace_level: u32,
) -> (Seq<Option<Session>>, Result<OpenCall, i32>) {
    if !spec_has_export(module.exports, SpiOp::Open) {
        (s, Err(WFS_ERR_INTERNAL_ERROR))
    } else {
        let i = find_first(s, session_slot_free());
        if i == -1 {
            (s, Err(WFS_ERR_INTERNAL_ERROR))
        } else {
            (
                s.update(i, Some(Session { request_id: 1, module, trace_level })),
                Ok(
                    OpenCall {
                        h_service: (i + 1) as u16,
                        request_id: 1,
                        spi_versions: SPI_VERSION_RANGE,
                    },
                ),
            )
        }
    }
}

/// What finishing an open does: a provider that reported failure leaves no
/// orphaned session — the published slot is released again — and the
/// provider's code is handed through either way.
pub open spec fn spec_open_finish(s: Seq<Option<Session>>, h: u16, code: i32) -> (
    Seq<Option<Session>>,
    i32,
) {
    if code == WFS_SUCCESS {
        (s, WFS_SUCCESS)
    } else {
        (spec_release(s, h).0, code)
    }
}

/// What finishing a close does: the session slot is released exactly once,
/// after the provider's own close call returned, and the provider's code is
/// handed through whatever it was.
pub open spec fn spec_close_finish(s: Seq<Option<Session>>, h: u16, code: i32) -> (
    Seq<Option<Session>>,
    i32,
) {
    if !session_live(s, h) {
        (s, WFS_ERR_INVALID_HSERVICE)
    } else {
        (s.update(h as int - 1, None), code)
    }
}

/// The manager.
pub struct Manager {
    started: bool,
    sessions: SessionTable,
    app_handles: AppHandleTable,
    blocked: BlockedThreadSet,
    blocking_hook: u64,
}

impl View for Manager {
    type V = ManagerModel;

    closed spec fn view(&self) -> ManagerModel {
        ManagerModel {
            started: self.started,
            sessions: self.sessions@,
            app_handles: self.app_handles@,
            blocked: self.blocked@,
            hook: self.blocking_hook,
        }
    }
}

impl Manager {
    /// Well-formedness of the manager: its tables are well-formed.
    pub closed spec fn inv(&self) -> bool {
        &&& self.sessions.inv()
        &&& self.app_handles.inv()
        &&& self.blocked.inv()
    }

    /// A fresh manager: not started, every table empty.
    pub fn new() -> (r: Manager)
        ensures
            r.inv(),
            r@ == fresh_model(),
    {
        let m = Manager {
            started: false,
            sessions: SessionTable::new(),
            app_handles: AppHandleTable::new(),
            blocked: BlockedThreadSet::new(),
            blocking_hook: 0,
        };
        proof {
            assert(m@.sessions =~= fresh_model().sessions);
            assert(m@.app_handles =~= fresh_model().app_handles);
            assert(m@.blocked =~= fresh_model().blocked);
        }
        m
    }

    /// Whether the manager has been started and not cleaned up since.
    pub fn is_started(&self) -> (r: bool)
        ensures
            r == self@.started,
    {
        self.started
    }

    /// Opens the started gate and hands back the manager's own version, 3.00,
    /// together with the span of API versions it accepts, 2.00 up to 3.30.
    /// A second start-up is refused with `WFS_ERR_ALREADY_STARTED`.
    pub fn start_up(&mut self, versions_required: u32) -> (r: Result<WfsVersion, i32>)
        requires
            old(self).inv(),
        ensures
            final(self).inv(),
            old(self)@.started ==> r is Err && r->Err_0 == WFS_ERR_ALREADY_STARTED && final(self)@
                == old(self)@,
            !old(self)@.started ==> {
                &&& final(self)@ == (ManagerModel {
                    started: true,
                    sessions: old(self)@.sessions,
                    app_handles: old(self)@.app_handles,
                    blocked: old(self)@.blocked,
                    hook: old(self)@.hook,
                })
                &&& r is Ok
                &&& r->Ok_0.version == spec_version_value(Version { major: 3, minor: 0 })
                &&& r->Ok_0.low_version == spec_version_value(Version { major: 2, minor: 0 })
                &&& r->Ok_0.high_version == spec_version_value(Version { major: 3, minor: 30 })
                &&& r->Ok_0.description@ == "Rust XFS Manager v2.00 to v3.30"@
            },
    {
        if self.started {
            return Err(WFS_ERR_ALREADY_STARTED);
        }
        self.started = true;
        let _ = versions_required;
        Ok(
            WfsVersion {
                version: Version::new_explicit(3, 0).value(),
                low_version: Version::new_explicit(2, 0).value(),
                high_version: Version::new_explicit(3, 30).value(),
                description: "Rust XFS Manager v2.00 to v3.30".to_owned(),
            },
        )
    }

    /// Closes the started gate again and resets every table: sessions,
    /// application handles, blocked threads, and the blocking hook. Fails
    /// with `WFS_ERR_NOT_STARTED` before start-up and with
    /// `WFS_ERR_OP_IN_PROGRESS` while the calling thread is in a blocking
    /// wait.
    pub fn clean_up(&mut self, thread: u32) -> (r: i32)
        requires
            old(self).inv(),
        ensures
            final(self).inv(),
            !old(self)@.started ==> r == WFS_ERR_NOT_STARTED && final(self)@ == old(self)@,
            old(self)@.started && is_blocked(old(self)@.blocked, thread) ==> r
                == WFS_ERR_OP_IN_PROGRESS && final(self)@ == old(self)@,
            old(self)@.started && !is_blocked(old(self)@.blocked, thread) ==> r == WFS_SUCCESS
                && final(self)@ == fresh_model(),
    {
        if !self.started {
            return WFS_ERR_NOT_STARTED;
        }
        if self.blocked.is_blocking(thread) {
            return WFS_ERR_OP_IN_PROGRESS;
        }
        self.started = false;
        self.sessions = SessionTable::new();
        self.app_handles = AppHandleTable::new();
        self.blocked = BlockedThreadSet::new();
        self.blocking_hook = 0;
        proof {
            assert(self@.sessions =~= fresh_model().sessions);
            assert(self@.app_handles =~= fresh_model().app_handles);
            assert(self@.blocked =~= fresh_model().blocked);
        }
        WFS_SUCCESS
    }

    /// Claims a fresh application handle.
    pub fn create_app_handle(&mut self, thread: u32) -> (r: Result<u32, i32>)
        requires
            old(self).inv(),
        ensures
            final(self).inv(),
            !old(self)@.started ==> r == Err::<u32, i32>(WFS_ERR_NOT_STARTED) && final(self)@
                == old(self)@,
            old(self)@.started && is_blocked(old(self)@.blocked, thread) ==> r == Err::<u32, i32>(
                WFS_ERR_OP_IN_PROGRESS,
            ) && final(self)@ == old(self)@,
            old(self)@.started && !is_blocked(old(self)@.blocked, thread) ==> final(self)@
                == with_app_handles(old(self)@, spec_create_app_handle(old(self)@.app_handles).0)
                && r == spec_create_app_handle(old(self)@.app_handles).1,
    {
        if !self.started {
            return Err(WFS_ERR_NOT_STARTED);
        }
        if self.blocked.is_blocking(thread) {
            return Err(WFS_ERR_OP_IN_PROGRESS);
        }
        self.app_handles.create_app_handle()
    }

    /// Releases an application handle.
    pub fn destroy_app_handle(&mut self, thread: u32, h_app: u32) -> (r: i32)
        requires
            old(self).inv(),
        ensures
            final(self).inv(),
            !old(self)@.started ==> r == WFS_ERR_NOT_STARTED && final(self)@ == old(self)@,
            old(self)@.started && is_blocked(old(self)@.blocked, thread) ==> r
                == WFS_ERR_OP_IN_PROGRESS && final(self)@ == old(self)@,
            old(self)@.started && !is_blocked(old(self)@.blocked, thread) ==> final(self)@
                == with_app_handles(
                old(self)@,
                spec_destroy_app_handle(old(self)@.app_handles, h_app).0,
            ) && r == spec_destroy_app_handle(old(self)@.app_handles, h_app).1,
    {
        if !self.started {
            return WFS_ERR_NOT_STARTED;
        }
        if self.blocked.is_blocking(thread) {
            return WFS_ERR_OP_IN_PROGRESS;
        }
        self.app_handles.destroy_app_handle(h_app)
    }

    /// Resolves a logical service name to the module path of its provider
    /// through the configuration. Read-only: the open mutates nothing until a
    /// loaded module is published.
    pub fn open_service(&self, thread: u32, config: &Config, logical_name: &String) -> (r: Result<
        String,
        i32,
    >)
        ensures
            !self@.started ==> r == Err::<String, i32>(WFS_ERR_NOT_STARTED),
            self@.started && is_blocked(self@.blocked, thread) ==> r == Err::<String, i32>(
                WFS_ERR_OP_IN_PROGRESS,
            ),
            self@.started && !is_blocked(self@.blocked, thread) ==> match spec_resolve(
                config@,
                logical_name@,
            ) {
                Ok(dllname) => r is Ok && r->Ok_0@ == dllname,
                Err(code) => r == Err::<String, i32>(code),
            },
    {
        if !self.started {
            return Err(WFS_ERR_NOT_STARTED);
        }
        if self.blocked.is_blocking(thread) {
            return Err(WFS_ERR_OP_IN_PROGRESS);
        }
        config.resolve_provider_path(logical_name)
    }

    /// Publishes a session for a freshly loaded provider module: the module
    /// must export its open entry, a slot must be free, and the session is
    /// published fully initialized with request id 1 — the id under which the
    /// caller invokes the provider's open entry.
    pub fn open_publish(&mut self, module: ProviderModule, trace_level: u32) -> (r: Result<
        OpenCall,
        i32,
    >)
        requires
            old(self).inv(),
        ensures
            final(self).inv(),
            !old(self)@.started ==> r == Err::<OpenCall, i32>(WFS_ERR_NOT_STARTED) && final(self)@
                == old(self)@,
            old(self)@.started ==> final(self)@ == with_sessions(
                old(self)@,
                spec_open_publish(old(self)@.sessions, module, trace_level).0,
            ) && r == spec_open_publish(old(self)@.sessions, module, trace_level).1,
    {
        if !self.started {
            return Err(WFS_ERR_NOT_STARTED);
        }
        if !module.exports.has(SpiOp::Open) {
            return Err(WFS_ERR_INTERNAL_ERROR);
        }
        let index = match self.sessions.allocate_session_slot() {
            Ok(index) => index,
            Err(code) => {
                return Err(code);
            },
        };
        self.sessions.publish_session(index, Session { request_id: 1, module, trace_level });
        Ok(
            OpenCall {
                h_service: (index as u16) + 1,
                request_id: 1,
                spi_versions: SPI_VERSION_RANGE,
            },
        )
    }

    /// Finishes an open after the provider's own open entry returned: a
    /// failure reported by the provider releases the already-published
    /// session again — no orphaned session — and the provider's code is
    /// handed through either way.
    pub fn open_finish(&mut self, h_service: u16, provider_result: i32) -> (r: i32)
        requires
            old(self).inv(),
        ensures
            final(self).inv(),
            final(self)@ == with_sessions(
                old(self)@,
                spec_open_finish(old(self)@.sessions, h_service, provider_result).0,
            ),
            r == spec_open_finish(old(self)@.sessions, h_service, provider_result).1,
    {
        if provider_result == WFS_SUCCESS {
            return WFS_SUCCESS;
        }
        self.sessions.release_session(h_service);
        provider_result
    }

    /// Dispatches `op` on session `h_service` as an asynchronous entry point:
    /// gated on the started flag and on the calling thread not being inside a
    /// blocking wait, then resolved, request id incremented, and described as
    /// the provider call to make.
    pub fn async_dispatch(&mut self, thread: u32, h_service: u16, op: SpiOp) -> (r: Result<
        ProviderCall,
        i32,
    >)
        requires
            old(self).inv(),
        ensures
            final(self).inv(),
            !old(self)@.started ==> r == Err::<ProviderCall, i32>(WFS_ERR_NOT_STARTED) && final(self)@ == old(self)@,
            old(self)@.started && is_blocked(old(self)@.blocked, thread) ==> r == Err::<
                ProviderCall,
                i32,
            >(WFS_ERR_OP_IN_PROGRESS) && final(self)@ == old(self)@,
            old(self)@.started && !is_blocked(old(self)@.blocked, thread) ==> final(self)@
                == with_sessions(old(self)@, spec_dispatch(old(self)@.sessions, h_service, op).0)
                && r == spec_dispatch(old(self)@.sessions, h_service, op).1,
    {
        if !self.started {
            return Err(WFS_ERR_NOT_STARTED);
        }
        if self.blocked.is_blocking(thread) {
            return Err(WFS_ERR_OP_IN_PROGRESS);
        }
        self.sessions.dispatch(h_service, op)
    }

    /// The asynchronous close: dispatched like every operation; the session
    /// slot is released later, by `close_finish`, once the provider's close
    /// returned.
    pub fn close_service(&mut self, thread: u32, h_service: u16) -> (r: Result<ProviderCall, i32>)
        requires
            old(self).inv(),
        ensures
            final(self).inv(),
            !old(self)@.started ==> r == Err::<ProviderCall, i32>(WFS_ERR_NOT_STARTED) && final(self)@ == old(self)@,
            old(self)@.started && is_blocked(old(self)@.blocked, thread) ==> r == Err::<
                ProviderCall,
                i32,
            >(WFS_ERR_OP_IN_PROGRESS) && final(self)@ == old(self)@,
            old(self)@.started && !is_blocked(old(self)@.blocked, thread) ==> final(self)@
                == with_sessions(
                old(self)@,
                spec_dispatch(old(self)@.sessions, h_service, SpiOp::Close).0,
            ) && r == spec_dispatch(old(self)@.sessions, h_service, SpiOp::Close).1,
    {
        self.async_dispatch(thread, h_service, SpiOp::Close)
    }

    /// Finishes a close after the provider's own close entry returned: the
    /// session slot is released exactly once, and the provider's code is
    /// handed through whatever it was.
    pub fn close_finish(&mut self, h_service: u16, provider_result: i32) -> (r: i32)
        requires
            old(self).inv(),
        ensures
            final(self).inv(),
            final(self)@ == with_sessions(
                old(self)@,
                spec_close_finish(old(self)@.sessions, h_service, provider_result).0,
            ),
            r == spec_close_finish(old(self)@.sessions, h_service, provider_result).1,
    {
        let released = self.sessions.release_session(h_service);
        if released != WFS_SUCCESS {
            return WFS_ERR_INVALID_HSERVICE;
        }
        provider_result
    }

    /// Registers an event target with the session's provider.
    pub fn register(&mut self, thread: u32, h_service: u16) -> (r: Result<ProviderCall, i32>)
        requires
            old(self).inv(),
        ensures
            final(self).inv(),
            !old(self)@.started ==> r == Err::<ProviderCall, i32>(WFS_ERR_NOT_STARTED) && final(self)@ == old(self)@,
            old(self)@.started && is_blocked(old(self)@.blocked, thread) ==> r == Err::<
                ProviderCall,
                i32,
            >(WFS_ERR_OP_IN_PROGRESS) && final(self)@ == old(self)@,
            old(self)@.started && !is_blocked(old(self)@.blocked, thread) ==> final(self)@
                == with_sessions(
                old(self)@,
                spec_dispatch(old(self)@.sessions, h_service, SpiOp::Register).0,
            ) && r == spec_dispatch(old(self)@.sessions, h_service, SpiOp::Register).1,
    {
        self.async_dispatch(thread, h_service, SpiOp::Register)
    }

    /// Deregisters an event target from the session's provider.
    pub fn deregister(&mut self, thread: u32, h_service: u16) -> (r: Result<ProviderCall, i32>)
        requires
            old(self).inv(),
        ensures
            final(self).inv(),
            !old(self)@.started ==> r == Err::<ProviderCall, i32>(WFS_ERR_NOT_STARTED) && final(self)@ == old(self)@,
            old(self)@.started && is_blocked(old(self)@.blocked, thread) ==> r == Err::<
                ProviderCall,
                i32,
            >(WFS_ERR_OP_IN_PROGRESS) && final(self)@ == old(self)@,
            old(self)@.started && !is_blocked(old(self)@.blocked, thread) ==> final(self)@
                == with_sessions(
                old(self)@,
                spec_dispatch(old(self)@.sessions, h_service, SpiOp::Deregister).0,
            ) && r == spec_dispatch(old(self)@.sessions, h_service, SpiOp::Deregister).1,
    {
        self.async_dispatch(thread, h_service, SpiOp::Deregister)
    }

    /// Executes a command on the session's provider.
    pub fn execute(&mut self, thread: u32, h_service: u16) -> (r: Result<ProviderCall, i32>)
        requires
            old(self).inv(),
        ensures
            final(self).inv(),
            !old(self)@.started ==> r == Err::<ProviderCall, i32>(WFS_ERR_NOT_STARTED) && final(self)@ == old(self)@,
            old(self)@.started && is_blocked(old(self)@.blocked, thread) ==> r == Err::<
                ProviderCall,
                i32,
            >(WFS_ERR_OP_IN_PROGRESS) && final(self)@ == old(self)@,
            old(self)@.started && !is_blocked(old(self)@.blocked, thread) ==> final(self)@
                == with_sessions(
                old(self)@,
                spec_dispatch(old(self)@.sessions, h_service, SpiOp::Execute).0,
            ) && r == spec_dispatch(old(self)@.sessions, h_service, SpiOp::Execute).1,
    {
        self.async_dispatch(thread, h_service, SpiOp::Execute)
    }

    /// Queries information from the session's provider.
    pub fn get_info(&mut self, thread: u32, h_service: u16) -> (r: Result<ProviderCall, i32>)
        requires
            old(self).inv(),
        ensures
            final(self).inv(),
            !old(self)@.started ==> r == Err::<ProviderCall, i32>(WFS_ERR_NOT_STARTED) && final(self)@ == old(self)@,
            old(self)@.started && is_blocked(old(self)@.blocked, thread) ==> r == Err::<
                ProviderCall,
                i32,
            >(WFS_ERR_OP_IN_PROGRESS) && final(self)@ == old(self)@,
            old(self)@.started && !is_blocked(old(self)@.blocked, thread) ==> final(self)@
                == with_sessions(
                old(self)@,
                spec_dispatch(old(self)@.sessions, h_service, SpiOp::GetInfo).0,
            ) && r == spec_dispatch(old(self)@.sessions, h_service, SpiOp::GetInfo).1,
    {
        self.async_dispatch(thread, h_service, SpiOp::GetInfo)
    }

    /// Locks the session's device.
    pub fn lock(&mut self, thread: u32, h_service: u16) -> (r: Result<ProviderCall, i32>)
        requires
            old(self).inv(),
        ensures
            final(self).inv(),
            !old(self)@.started ==> r == Err::<ProviderCall, i32>(WFS_ERR_NOT_STARTED) && final(self)@ == old(self)@,
            old(self)@.started && is_blocked(old(self)@.blocked, thread) ==> r == Err::<
                ProviderCall,
                i32,
            >(WFS_ERR_OP_IN_PROGRESS) && final(self)@ == old(self)@,
            old(self)@.started && !is_blocked(old(self)@.blocked, thread) ==> final(self)@
                == with_sessions(
                old(self)@,
                spec_dispatch(old(self)@.sessions, h_service, SpiOp::Lock).0,
            ) && r == spec_dispatch(old(self)@.sessions, h_service, SpiOp::Lock).1,
    {
        self.async_dispatch(thread, h_service, SpiOp::Lock)
    }

    /// Unlocks the session's device.
    pub fn unlock(&mut self, thread: u32, h_service: u16) -> (r: Result<ProviderCall, i32>)
        requires
            old(self).inv(),
        ensures
            final(self).inv(),
            !old(self)@.started ==> r == Err::<ProviderCall, i32>(WFS_ERR_NOT_STARTED) && final(self)@ == old(self)@,
            old(self)@.started && is_blocked(old(self)@.blocked, thread) ==> r == Err::<
                ProviderCall,
                i32,
            >(WFS_ERR_OP_IN_PROGRESS) && final(self)@ == old(self)@,
            old(self)@.started && !is_blocked(old(self)@.blocked, thread) ==> final(self)@
                == with_sessions(
                old(self)@,
                spec_dispatch(old(self)@.sessions, h_service, SpiOp::Unlock).0,
            ) && r == spec_dispatch(old(self)@.sessions, h_service, SpiOp::Unlock).1,
    {
        self.async_dispatch(thread, h_service, SpiOp::Unlock)
    }

    /// Asks the session's provider to cancel an earlier asynchronous request.
    /// Cancelling is itself a dispatched operation and carries a fresh
    /// request id; which request to cancel is between the caller and the
    /// provider.
    pub fn cancel_request(&mut self, thread: u32, h_service: u16) -> (r: Result<ProviderCall, i32>)
        requires
            old(self).inv(),
        ensures
            final(self).inv(),
            !old(self)@.started ==> r == Err::<ProviderCall, i32>(WFS_ERR_NOT_STARTED) && final(self)@ == old(self)@,
            old(self)@.started && is_blocked(old(self)@.blocked, thread) ==> r == Err::<
                ProviderCall,
                i32,
            >(WFS_ERR_OP_IN_PROGRESS) && final(self)@ == old(self)@,
            old(self)@.started && !is_blocked(old(self)@.blocked, thread) ==> final(self)@
                == with_sessions(
                old(self)@,
                spec_dispatch(old(self)@.sessions, h_service, SpiOp::CancelAsyncRequest).0,
            ) && r == spec_dispatch(old(self)@.sessions, h_service, SpiOp::CancelAsyncRequest).1,
    {
        self.async_dispatch(thread, h_service, SpiOp::CancelAsyncRequest)
    }

    /// Handles a provider-release request: releases the session that holds
    /// the module named by the provider token. The caller unloads the module
    /// itself once this returns.
    pub fn release_dll(&mut self, h_provider: u64) -> (r: i32)
        requires
            old(self).inv(),
        ensures
            final(self).inv(),
            !old(self)@.started ==> r == WFS_ERR_NOT_STARTED && final(self)@ == old(self)@,
            old(self)@.started ==> final(self)@ == with_sessions(
                old(self)@,
                spec_release_module(old(self)@.sessions, h_provider).0,
            ) && r == spec_release_module(old(self)@.sessions, h_provider).1,
    {
        if !self.started {
            return WFS_ERR_NOT_STARTED;
        }
        self.sessions.release_module(h_provider)
    }

    /// The trace level of a session.
    pub fn get_trace_level(&self, h_service: u16) -> (r: Result<u32, i32>)
        ensures
            !self@.started ==> r == Err::<u32, i32>(WFS_ERR_NOT_STARTED),
            self@.started && session_live(self@.sessions, h_service) ==> r == Ok::<u32, i32>(
                self@.sessions[h_service as int - 1]->Some_0.trace_level,
            ),
            self@.started && !session_live(self@.sessions, h_service) ==> r == Err::<u32, i32>(
                WFS_ERR_INVALID_HSERVICE,
            ),
    {
        if !self.started {
            return Err(WFS_ERR_NOT_STARTED);
        }
        self.sessions.get_trace_level(h_service)
    }

    /// Sets the trace level of a session: a dispatched operation that also
    /// stores the new level.
    pub fn set_trace_level(&mut self, h_service: u16, trace_level: u32) -> (r: Result<
        ProviderCall,
        i32,
    >)
        requires
            old(self).inv(),
        ensures
            final(self).inv(),
            !old(self)@.started ==> r == Err::<ProviderCall, i32>(WFS_ERR_NOT_STARTED) && final(self)@ == old(self)@,
            old(self)@.started ==> final(self)@ == with_sessions(
                old(self)@,
                spec_set_trace_level(old(self)@.sessions, h_service, trace_level).0,
            ) && r == spec_set_trace_level(old(self)@.sessions, h_service, trace_level).1,
    {
        if !self.started {
            return Err(WFS_ERR_NOT_STARTED);
        }
        self.sessions.set_trace_level(h_service, trace_level)
    }

    /// Whether the given thread is inside a blocking call. A pure membership
    /// query: never blocks, never mutates, and needs no started gate.
    pub fn is_blocking(&self, thread: u32) -> (r: bool)
        ensures
            r == is_blocked(self@.blocked, thread),
    {
        self.blocked.is_blocking(thread)
    }

    /// Requests cancellation of the named thread's blocking call: sets its
    /// cancel flag if and only if that thread is waiting, and fails with
    /// `WFS_ERR_NO_BLOCKING_CALL` otherwise. Only the waiting thread itself
    /// ends its wait; the dispatched operation is not revoked by this.
    pub fn cancel_blocking_call(&mut self, thread: u32) -> (r: i32)
        requires
            old(self).inv(),
        ensures
            final(self).inv(),
            !old(self)@.started ==> r == WFS_ERR_NOT_STARTED && final(self)@ == old(self)@,
            old(self)@.started ==> {
                &&& final(self)@ == with_blocked(
                    old(self)@,
                    spec_request_cancel(old(self)@.blocked, thread).0,
                )
                &&& spec_request_cancel(old(self)@.blocked, thread).1 ==> r == WFS_SUCCESS
                &&& !spec_request_cancel(old(self)@.blocked, thread).1 ==> r
                    == WFS_ERR_NO_BLOCKING_CALL
            },
    {
        if !self.started {
            return WFS_ERR_NOT_STARTED;
        }
        if self.blocked.request_cancel(thread) {
            WFS_SUCCESS
        } else {
            WFS_ERR_NO_BLOCKING_CALL
        }
    }

    /// Installs the process-wide blocking hook and returns the previously
    /// installed one; zero stands for "use the default hook".
    pub fn set_blocking_hook(&mut self, thread: u32, hook: u64) -> (r: Result<u64, i32>)
        requires
            old(self).inv(),
        ensures
            final(self).inv(),
            !old(self)@.started ==> r == Err::<u64, i32>(WFS_ERR_NOT_STARTED) && final(self)@
                == old(self)@,
            old(self)@.started && is_blocked(old(self)@.blocked, thread) ==> r == Err::<u64, i32>(
                WFS_ERR_OP_IN_PROGRESS,
            ) && final(self)@ == old(self)@,
            old(self)@.started && !is_blocked(old(self)@.blocked, thread) ==> {
                &&& r == Ok::<u64, i32>(old(self)@.hook)
                &&& final(self)@ == (ManagerModel {
                    started: old(self)@.started,
                    sessions: old(self)@.sessions,
                    app_handles: old(self)@.app_handles,
                    blocked: old(self)@.blocked,
                    hook: hook,
                })
            },
    {
        if !self.started {
            return Err(WFS_ERR_NOT_STARTED);
        }
        if self.blocked.is_blocking(thread) {
            return Err(WFS_ERR_OP_IN_PROGRESS);
        }
        let previous = self.blocking_hook;
        self.blocking_hook = hook;
        Ok(previous)
    }

    /// Restores the default blocking hook.
    pub fn unhook_blocking_hook(&mut self, thread: u32) -> (r: i32)
        requires
            old(self).inv(),
        ensures
            final(self).inv(),
            !old(self)@.started ==> r == WFS_ERR_NOT_STARTED && final(self)@ == old(self)@,
            old(self)@.started && is_blocked(old(self)@.blocked, thread) ==> r
                == WFS_ERR_OP_IN_PROGRESS && final(self)@ == old(self)@,
            old(self)@.started && !is_blocked(old(self)@.blocked, thread) ==> r == WFS_SUCCESS
                && final(self)@ == (ManagerModel {
                started: old(self)@.started,
                sessions: old(self)@.sessions,
                app_handles: old(self)@.app_handles,
                blocked: old(self)@.blocked,
                hook: 0,
            }),
    {
        if !self.started {
            return WFS_ERR_NOT_STARTED;
        }
        if self.blocked.is_blocking(thread) {
            return WFS_ERR_OP_IN_PROGRESS;
        }
        self.blocking_hook = 0;
        WFS_SUCCESS
    }

    /// The currently installed blocking hook; zero stands for the default.
    pub fn blocking_hook(&self) -> (r: u64)
        ensures
            r == self@.hook,
    {
        self.blocking_hook
    }

    /// Begins a synchronous call on the given thread and dispatches its
    /// asynchronous form in one step: the thread is marked blocked first — a
    /// thread that already has a blocking call in progress is refused with
    /// `WFS_ERR_OP_IN_PROGRESS` — and if the dispatch itself is refused, the
    /// thread is unblocked again before the error propagates, so no wait
    /// occurs.
    pub fn sync_dispatch_begin(&mut self, thread: u32, h_service: u16, op: SpiOp) -> (r: Result<
        ProviderCall,
        i32,
    >)
        requires
            old(self).inv(),
        ensures
            final(self).inv(),
            !old(self)@.started ==> r == Err::<ProviderCall, i32>(WFS_ERR_NOT_STARTED) && final(self)@ == old(self)@,
            old(self)@.started && is_blocked(old(self)@.blocked, thread) ==> r == Err::<
                ProviderCall,
                i32,
            >(WFS_ERR_OP_IN_PROGRESS) && final(self)@ == old(self)@,
            old(self)@.started && !is_blocked(old(self)@.blocked, thread) && spec_dispatch(
                old(self)@.sessions,
                h_service,
                op,
            ).1 is Err ==> r == spec_dispatch(old(self)@.sessions, h_service, op).1 && final(self)@
                == old(self)@,
            old(self)@.started && !is_blocked(old(self)@.blocked, thread) && spec_dispatch(
                old(self)@.sessions,
                h_service,
                op,
            ).1 is Ok ==> r == spec_dispatch(old(self)@.sessions, h_service, op).1 && final(self)@
                == with_sessions(
                with_blocked(old(self)@, spec_block(old(self)@.blocked, thread).0),
                spec_dispatch(old(self)@.sessions, h_service, op).0,
            ),
    {
        if !self.started {
            return Err(WFS_ERR_NOT_STARTED);
        }
        if !self.blocked.block(thread) {
            return Err(WFS_ERR_OP_IN_PROGRESS);
        }
        match self.sessions.dispatch(h_service, op) {
            Ok(call) => Ok(call),
            Err(code) => {
                proof {
                    crate::bridge::lemma_unblock_after_block(old(self)@.blocked, thread);
                }
                self.blocked.unblock(thread);
                Err(code)
            },
        }
    }

    /// One poll step of a waiting synchronous call: observes the thread's
    /// cancel flag and whatever its call-scoped completion endpoint received,
    /// ends the wait on either, and keeps waiting otherwise.
    pub fn sync_step(&mut self, thread: u32, received: Option<CompletionRecord>) -> (r: SyncStep)
        requires
            old(self).inv(),
        ensures
            final(self).inv(),
            final(self)@ == with_blocked(
                old(self)@,
                spec_sync_step(old(self)@.blocked, thread, received).0,
            ),
            r == spec_sync_step(old(self)@.blocked, thread, received).1,
    {
        self.blocked.sync_step(thread, received)
    }

    /// Removes the thread from the blocked set without a result: the error
    /// path of a synchronous wrapper whose asynchronous form was refused
    /// after the thread was already marked.
    pub fn end_blocking(&mut self, thread: u32) -> (r: bool)
        requires
            old(self).inv(),
        ensures
            final(self).inv(),
            final(self)@ == with_blocked(old(self)@, spec_unblock(old(self)@.blocked, thread).0),
            r == spec_unblock(old(self)@.blocked, thread).1,
    {
        self.blocked.unblock(thread)
    }
}

/// A synchronous call that was canceled while waiting reports
/// `WFS_ERR_CANCELED` to its caller; the step that observes the cancel flag
/// ends the wait.
pub open spec fn sync_result_code(step: SyncStep) -> i32 {
    match step {
        SyncStep::Continue => WFS_SUCCESS,
        SyncStep::Canceled => crate::errors::WFS_ERR_CANCELED,
        SyncStep::Done(code) => code,
    }
}

/// Turns the decision of a finished poll step into the synchronous call's
/// result code: a canceled wait reports `WFS_ERR_CANCELED`, a completed one
/// the result its completion record carried.
pub fn sync_step_result(step: SyncStep) -> (r: i32)
    ensures
        r == sync_result_code(step),
{
    match step {
        SyncStep::Continue => WFS_SUCCESS,
        SyncStep::Canceled => crate::errors::WFS_ERR_CANCELED,
        SyncStep::Done(code) => code,
    }
}

} // verus!
