//! The service-session table and per-session request-id dispatch.
//!
//! A session is one open connection to a provider module, named by a nonzero
//! handle that indexes a fixed slot array; handle zero is always invalid. A
//! slot is empty until a fully initialized session is published into it, so
//! no observer ever sees a half-built session. Every dispatched operation
//! resolves the session, checks the provider's matching export, increments
//! the session's request-id counter exactly once, and carries the new id.

use vstd::prelude::*;

use crate::errors::{
    WFS_ERR_INTERNAL_ERROR, WFS_ERR_INVALID_HPROVIDER, WFS_ERR_INVALID_HSERVICE, WFS_SUCCESS,
};
use crate::provider::{spec_has_export, ProviderCall, ProviderModule, SpiOp};
use crate::seq_find::{find_first, lemma_find_first_at, lemma_find_first_none};

verus! {

/// How many sessions can be open at once.
pub const SESSION_SLOTS: usize = 8192;

/// One open session: its monotonically increasing request-id counter, the
/// loaded provider module, and its trace level.
#[derive(Clone, Copy, PartialEq, Eq, Structural, Debug)]
pub struct Session {
    pub request_id: u32,
    pub module: ProviderModule,
    pub trace_level: u32,
}

/// The predicate "this session slot is empty".
pub open spec fn session_slot_free() -> spec_fn(Option<Session>) -> bool {
    |s: Option<Session>| s is None
}

/// The request id that follows `r`: the counter wraps on overflow.
pub open spec fn next_request_id(r: u32) -> u32 {
    if r == u32::MAX {
        0
    } else {
        (r + 1) as u32
    }
}

/// Whether `h` names an occupied session slot.
pub open spec fn session_live(s: Seq<Option<Session>>, h: u16) -> bool {
    h != 0 && h as int <= s.len() && s[h as int - 1] is Some
}

/// What dispatching `op` on session `h` does: resolves the session (else
/// `WFS_ERR_INVALID_HSERVICE`), requires the provider's matching export (else
/// `WFS_ERR_INTERNAL_ERROR`), increments the session's request id exactly
/// once, and describes the provider call to make under the new id.
pub open spec fn spec_dispatch(s: Seq<Option<Session>>, h: u16, op: SpiOp) -> (
    Seq<Option<Session>>,
    Result<ProviderCall, i32>,
) {
    if !session_live(s, h) {
        (s, Err(WFS_ERR_INVALID_HSERVICE))
    } else {
        let sess = s[h as int - 1]->Some_0;
        if !spec_has_export(sess.module.exports, op) {
            (s, Err(WFS_ERR_INTERNAL_ERROR))
        } else {
            let rid = next_request_id(sess.request_id);
            let sess2 = Session {
                request_id: rid,
                module: sess.module,
                trace_level: sess.trace_level,
            };
            (
                s.update(h as int - 1, Some(sess2)),
                Ok(ProviderCall { h_service: h, request_id: rid, op }),
            )
        }
    }
}

/// What setting the trace level on session `h` does: the same resolution,
/// export check and request-id increment as any dispatched operation, and
/// additionally the new level is stored in the session.
pub open spec fn spec_set_trace_level(s: Seq<Option<Session>>, h: u16, level: u32) -> (
    Seq<Option<Session>>,
    Result<ProviderCall, i32>,
) {
    if !session_live(s, h) {
        (s, Err(WFS_ERR_INVALID_HSERVICE))
    } else {
        let sess = s[h as int - 1]->Some_0;
        if !spec_has_export(sess.module.exports, SpiOp::SetTraceLevel) {
            (s, Err(WFS_ERR_INTERNAL_ERROR))
        } else {
            let rid = next_request_id(sess.request_id);
            let sess2 = Session { request_id: rid, module: sess.module, trace_level: level };
            (
                s.update(h as int - 1, Some(sess2)),
                Ok(ProviderCall { h_service: h, request_id: rid, op: SpiOp::SetTraceLevel }),
            )
        }
    }
}

/// The predicate "this slot holds a session whose module carries the given
/// provider token".
pub open spec fn module_matches(h_provider: u64) -> spec_fn(Option<Session>) -> bool {
    |s: Option<Session>| s is Some && s->Some_0.module.module_id == h_provider
}

/// What a provider-release request does: empties the first slot whose session
/// holds the named module, or fails with `WFS_ERR_INVALID_HPROVIDER` when no
/// open session holds it.
pub open spec fn spec_release_module(s: Seq<Option<Session>>, h_provider: u64) -> (
    Seq<Option<Session>>,
    i32,
) {
    let i = find_first(s, module_matches(h_provider));
    if i == -1 {
        (s, WFS_ERR_INVALID_HPROVIDER)
    } else {
        (s.update(i, None), WFS_SUCCESS)
    }
}

/// What releasing session `h` does: empties its slot, or fails with
/// `WFS_ERR_INVALID_HSERVICE` when `h` names no live session.
pub open spec fn spec_release(s: Seq<Option<Session>>, h: u16) -> (Seq<Option<Session>>, i32) {
    if !session_live(s, h) {
        (s, WFS_ERR_INVALID_HSERVICE)
    } else {
        (s.update(h as int - 1, None), WFS_SUCCESS)
    }
}

/// The session table.
pub struct SessionTable {
    slots: Vec<Option<Session>>,
}

impl View for SessionTable {
    type V = Seq<Option<Session>>;

    closed spec fn view(&self) -> Seq<Option<Session>> {
        self.slots@
    }
}

impl SessionTable {
    /// Well-formedness: the table has exactly `SESSION_SLOTS` slots.
    pub open spec fn inv(&self) -> bool {
        self@.len() == SESSION_SLOTS
    }

    /// A fresh table: every slot empty.
    pub fn new() -> (r: SessionTable)
        ensures
            r.inv(),
            forall|j: int| 0 <= j < r@.len() ==> (#[trigger] r@[j]) is None,
    {
        let mut slots: Vec<Option<Session>> = Vec::with_capacity(SESSION_SLOTS);
        let mut i: usize = 0;
        while i < SESSION_SLOTS
            invariant
                i <= SESSION_SLOTS,
                slots@.len() == i,
                forall|j: int| 0 <= j < i ==> (#[trigger] slots@[j]) is None,
            decreases SESSION_SLOTS - i,
        {
            slots.push(None);
            i = i + 1;
        }
        SessionTable { slots }
    }

    /// The index of the first empty slot; fails with
    /// `WFS_ERR_INTERNAL_ERROR` when every slot holds a session.
    pub fn allocate_session_slot(&self) -> (r: Result<usize, i32>)
        ensures
            r is Ok ==> r->Ok_0 as int == find_first(self@, session_slot_free())
                && r->Ok_0 < self@.len() && self@[r->Ok_0 as int] is None,
            r is Err ==> r->Err_0 == WFS_ERR_INTERNAL_ERROR && find_first(
                self@,
                session_slot_free(),
            ) == -1,
    {
        let n = self.slots.len();
        let mut i: usize = 0;
        while i < n
            invariant
                i <= n,
                n == self.slots@.len(),
                forall|j: int| 0 <= j < i ==> (#[trigger] self.slots@[j]) is Some,
            decreases n - i,
        {
            if self.slots[i].is_none() {
                proof {
                    lemma_find_first_at(self@, session_slot_free(), i as int);
                }
                return Ok(i);
            }
            i = i + 1;
        }
        proof {
            lemma_find_first_none(self@, session_slot_free());
        }
        Err(WFS_ERR_INTERNAL_ERROR)
    }

    /// Publishes a fully initialized session into the empty slot `index`; the
    /// slot's handle is `index + 1`.
    pub fn publish_session(&mut self, index: usize, session: Session)
        requires
            old(self).inv(),
            index < old(self)@.len(),
            old(self)@[index as int] is None,
        ensures
            final(self).inv(),
            final(self)@ == old(self)@.update(index as int, Some(session)),
    {
        self.slots.set(index, Some(session));
    }

    /// The session behind handle `h`; fails with `WFS_ERR_INVALID_HSERVICE`
    /// when `h` is zero, out of range, or names an empty slot.
    pub fn get_session(&self, h: u16) -> (r: Result<Session, i32>)
        ensures
            session_live(self@, h) ==> r == Ok::<Session, i32>(self@[h as int - 1]->Some_0),
            !session_live(self@, h) ==> r == Err::<Session, i32>(WFS_ERR_INVALID_HSERVICE),
    {
        if h == 0 {
            return Err(WFS_ERR_INVALID_HSERVICE);
        }
        let idx = (h - 1) as usize;
        if idx >= self.slots.len() {
            return Err(WFS_ERR_INVALID_HSERVICE);
        }
        match self.slots[idx] {
            Some(session) => Ok(session),
            None => Err(WFS_ERR_INVALID_HSERVICE),
        }
    }

    /// Releases the slot of handle `h`.
    pub fn release_session(&mut self, h: u16) -> (r: i32)
        requires
            old(self).inv(),
        ensures
            final(self).inv(),
            final(self)@ == spec_release(old(self)@, h).0,
            r == spec_release(old(self)@, h).1,
    {
        if h == 0 {
            return WFS_ERR_INVALID_HSERVICE;
        }
        let idx = (h - 1) as usize;
        if idx >= self.slots.len() {
            return WFS_ERR_INVALID_HSERVICE;
        }
        if self.slots[idx].is_none() {
            return WFS_ERR_INVALID_HSERVICE;
        }
        self.slots.set(idx, None);
        WFS_SUCCESS
    }

    /// Dispatches `op` on session `h`: resolves the session, checks the
    /// provider's export, increments the request id exactly once, and returns
    /// the provider call to make under the new id.
    pub fn dispatch(&mut self, h: u16, op: SpiOp) -> (r: Result<ProviderCall, i32>)
        requires
            old(self).inv(),
        ensures
            final(self).inv(),
            final(self)@ == spec_dispatch(old(self)@, h, op).0,
            r == spec_dispatch(old(self)@, h, op).1,
    {
        if h == 0 {
            return Err(WFS_ERR_INVALID_HSERVICE);
        }
        let idx = (h - 1) as usize;
        if idx >= self.slots.len() {
            return Err(WFS_ERR_INVALID_HSERVICE);
        }
        let sess = match self.slots[idx] {
            Some(sess) => sess,
            None => {
                return Err(WFS_ERR_INVALID_HSERVICE);
            },
        };
        if !sess.module.exports.has(op) {
            return Err(WFS_ERR_INTERNAL_ERROR);
        }
        let rid: u32 = if sess.request_id == u32::MAX {
            0
        } else {
            sess.request_id + 1
        };
        self.slots.set(
            idx,
            Some(Session { request_id: rid, module: sess.module, trace_level: sess.trace_level }),
        );
        Ok(ProviderCall { h_service: h, request_id: rid, op })
    }

    /// Sets the trace level of session `h`: a dispatched operation that also
    /// stores the new level in the session.
    pub fn set_trace_level(&mut self, h: u16, level: u32) -> (r: Result<ProviderCall, i32>)
        requires
            old(self).inv(),
        ensures
            final(self).inv(),
            final(self)@ == spec_set_trace_level(old(self)@, h, level).0,
            r == spec_set_trace_level(old(self)@, h, level).1,
    {
        if h == 0 {
            return Err(WFS_ERR_INVALID_HSERVICE);
        }
        let idx = (h - 1) as usize;
        if idx >= self.slots.len() {
            return Err(WFS_ERR_INVALID_HSERVICE);
        }
        let sess = match self.slots[idx] {
            Some(sess) => sess,
            None => {
                return Err(WFS_ERR_INVALID_HSERVICE);
            },
        };
        if !sess.module.exports.has(SpiOp::SetTraceLevel) {
            return Err(WFS_ERR_INTERNAL_ERROR);
        }
        let rid: u32 = if sess.request_id == u32::MAX {
            0
        } else {
            sess.request_id + 1
        };
        self.slots.set(
            idx,
            Some(Session { request_id: rid, module: sess.module, trace_level: level }),
        );
        Ok(ProviderCall { h_service: h, request_id: rid, op: SpiOp::SetTraceLevel })
    }

    /// Releases the first session holding the module named by the provider
    /// token, as a provider-release request asks; the module handle itself is
    /// the caller's to unload.
    pub fn release_module(&mut self, h_provider: u64) -> (r: i32)
        requires
            old(self).inv(),
        ensures
            final(self).inv(),
            final(self)@ == spec_release_module(old(self)@, h_provider).0,
            r == spec_release_module(old(self)@, h_provider).1,
    {
        let n = self.slots.len();
        let mut i: usize = 0;
        while i < n
            invariant
                i <= n,
                n == self.slots@.len(),
                n == SESSION_SLOTS,
                *self == *old(self),
                forall|j: int|
                    0 <= j < i ==> !((#[trigger] self.slots@[j]) is Some
                        && self.slots@[j]->Some_0.module.module_id == h_provider),
            decreases n - i,
        {
            let matched = match self.slots[i] {
                Some(sess) => sess.module.module_id == h_provider,
                None => false,
            };
            if matched {
                proof {
                    lemma_find_first_at(self@, module_matches(h_provider), i as int);
                }
                self.slots.set(i, None);
                return WFS_SUCCESS;
            }
            i = i + 1;
        }
        proof {
            lemma_find_first_none(self@, module_matches(h_provider));
        }
        WFS_ERR_INVALID_HPROVIDER
    }

    /// The trace level of session `h`.
    pub fn get_trace_level(&self, h: u16) -> (r: Result<u32, i32>)
        ensures
            session_live(self@, h) ==> r == Ok::<u32, i32>(
                self@[h as int - 1]->Some_0.trace_level,
            ),
            !session_live(self@, h) ==> r == Err::<u32, i32>(WFS_ERR_INVALID_HSERVICE),
    {
        match self.get_session(h) {
            Ok(sess) => Ok(sess.trace_level),
            Err(code) => Err(code),
        }
    }
}

/// Request ids observed across two consecutive dispatched operations on the
/// same session strictly increase, as long as the 32-bit counter does not
/// wrap within the pair.
pub proof fn lemma_request_ids_strictly_increase(
    s: Seq<Option<Session>>,
    h: u16,
    op1: SpiOp,
    op2: SpiOp,
)
    requires
        session_live(s, h),
        s[h as int - 1]->Some_0.request_id + 2 <= u32::MAX,
        spec_dispatch(s, h, op1).1 is Ok,
        spec_dispatch(spec_dispatch(s, h, op1).0, h, op2).1 is Ok,
    ensures
        spec_dispatch(spec_dispatch(s, h, op1).0, h, op2).1->Ok_0.request_id > spec_dispatch(
            s,
            h,
            op1,
        ).1->Ok_0.request_id,
{
}

/// The request id a dispatched operation carries is the one the session's
/// counter was incremented to: exactly one increment per dispatch.
pub proof fn lemma_dispatch_increments_once(s: Seq<Option<Session>>, h: u16, op: SpiOp)
    requires
        spec_dispatch(s, h, op).1 is Ok,
    ensures
        spec_dispatch(s, h, op).1->Ok_0.request_id == next_request_id(
            s[h as int - 1]->Some_0.request_id,
        ),
        spec_dispatch(s, h, op).0[h as int - 1]->Some_0.request_id == spec_dispatch(
            s,
            h,
            op,
        ).1->Ok_0.request_id,
{
}

} // verus!
