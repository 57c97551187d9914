//! The fixed-size timer-slot registry.
//!
//! A timer is a small nonzero id naming one of `TIMER_SLOTS` slots. Setting a
//! timer claims the first empty slot; the slot holds the timer's target
//! endpoint and an opaque context value until it is released again, either by
//! an explicit kill or by the one-shot firing that takes the stored data out
//! in the same step. A slot can therefore never be claimed twice, and a
//! fired or killed timer cannot be killed again.

use vstd::prelude::*;

use crate::errors::{
    WFS_ERR_INTERNAL_ERROR, WFS_ERR_INVALID_DATA, WFS_ERR_INVALID_HWND, WFS_ERR_INVALID_POINTER,
    WFS_ERR_INVALID_TIMER, WFS_SUCCESS,
};
use crate::outptr::OutPtr;

verus! {

/// How many timer slots exist; valid timer ids are `1 ..= TIMER_SLOTS`.
pub const TIMER_SLOTS: usize = 65535;

/// What one claimed slot holds: the endpoint to post the completion to and
/// the caller's opaque context value.
#[derive(Clone, Copy, PartialEq, Eq, Structural, Debug)]
pub struct TimerEntry {
    pub hwnd: u64,
    pub context: u64,
}

/// The index of the first empty slot, or `-1` if every slot is claimed.
pub open spec fn find_free(s: Seq<Option<TimerEntry>>) -> int
    decreases s.len(),
{
    if s.len() == 0 {
        -1
    } else if s[0] is None {
        0
    } else {
        let k = find_free(s.subrange(1, s.len() as int));
        if k == -1 {
            -1
        } else {
            k + 1
        }
    }
}

/// What `set_timer` does to the slots once its arguments are known to be
/// usable: the new slots, the result code, and the claimed id (zero unless
/// the call succeeds).
pub open spec fn spec_set_timer(s: Seq<Option<TimerEntry>>, hwnd: u64, context: u64) -> (
    Seq<Option<TimerEntry>>,
    i32,
    u16,
) {
    let i = find_free(s);
    if i == -1 {
        (s, WFS_ERR_INTERNAL_ERROR, 0)
    } else {
        (s.update(i, Some(TimerEntry { hwnd, context })), WFS_SUCCESS, (i + 1) as u16)
    }
}

/// What `kill_timer` does to the slots: releases a claimed slot, and fails
/// with `WFS_ERR_INVALID_TIMER` on the zero id, an out-of-range id, or a slot
/// that is already empty.
pub open spec fn spec_kill_timer(s: Seq<Option<TimerEntry>>, id: u16) -> (
    Seq<Option<TimerEntry>>,
    i32,
) {
    if id == 0 || id as int > s.len() || s[id as int - 1] is None {
        (s, WFS_ERR_INVALID_TIMER)
    } else {
        (s.update(id as int - 1, None), WFS_SUCCESS)
    }
}

/// What a firing does to the slots: takes the stored entry out of the slot in
/// the same step, or nothing if the slot was already released.
pub open spec fn spec_fire_timer(s: Seq<Option<TimerEntry>>, id: u16) -> (
    Seq<Option<TimerEntry>>,
    Option<TimerEntry>,
) {
    if id == 0 || id as int > s.len() || s[id as int - 1] is None {
        (s, None)
    } else {
        (s.update(id as int - 1, None), s[id as int - 1])
    }
}

/// `find_free` returns a genuine index of an empty slot, or `-1` when every
/// slot is claimed.
pub proof fn lemma_find_free_props(s: Seq<Option<TimerEntry>>)
    ensures
        find_free(s) == -1 ==> forall|j: int| 0 <= j < s.len() ==> (#[trigger] s[j]) is Some,
        find_free(s) != -1 ==> 0 <= find_free(s) < s.len() && s[find_free(s)] is None,
    decreases s.len(),
{
    if s.len() > 0 && s[0] is Some {
        let rest = s.subrange(1, s.len() as int);
        lemma_find_free_props(rest);
        if find_free(s) == -1 {
            assert forall|j: int| 0 <= j < s.len() implies (#[trigger] s[j]) is Some by {
                if j > 0 {
                    assert(s[j] == rest[j - 1]);
                }
            }
        }
    }
}

/// `find_free` finds the first empty index.
pub proof fn lemma_find_free_at(s: Seq<Option<TimerEntry>>, i: int)
    requires
        0 <= i < s.len(),
        s[i] is None,
        forall|j: int| 0 <= j < i ==> (#[trigger] s[j]) is Some,
    ensures
        find_free(s) == i,
    decreases s.len(),
{
    if i > 0 {
        lemma_find_free_at(s.subrange(1, s.len() as int), i - 1);
    }
}

/// `find_free` misses when every slot is claimed.
pub proof fn lemma_find_free_none(s: Seq<Option<TimerEntry>>)
    requires
        forall|j: int| 0 <= j < s.len() ==> (#[trigger] s[j]) is Some,
    ensures
        find_free(s) == -1,
    decreases s.len(),
{
    if s.len() > 0 {
        lemma_find_free_none(s.subrange(1, s.len() as int));
    }
}

/// The timer-slot table.
pub struct TimerTable {
    slots: Vec<Option<TimerEntry>>,
}

impl View for TimerTable {
    type V = Seq<Option<TimerEntry>>;

    closed spec fn view(&self) -> Seq<Option<TimerEntry>> {
        self.slots@
    }
}

impl TimerTable {
    /// Well-formedness: the table has exactly `TIMER_SLOTS` slots.
    pub open spec fn inv(&self) -> bool {
        self@.len() == TIMER_SLOTS
    }

    /// A fresh table: every slot empty.
    pub fn new() -> (r: TimerTable)
        ensures
            r.inv(),
            forall|j: int| 0 <= j < r@.len() ==> (#[trigger] r@[j]) is None,
    {
        let mut slots: Vec<Option<TimerEntry>> = Vec::with_capacity(TIMER_SLOTS);
        let mut i: usize = 0;
        while i < TIMER_SLOTS
            invariant
                i <= TIMER_SLOTS,
                slots@.len() == i,
                forall|j: int| 0 <= j < i ==> (#[trigger] slots@[j]) is None,
            decreases TIMER_SLOTS - i,
        {
            slots.push(None);
            i = i + 1;
        }
        TimerTable { slots }
    }

    /// Claims the first empty slot for a one-shot timer toward `hwnd` with the
    /// opaque `context`, and writes the claimed nonzero id through `timer_id`.
    /// Fails with `WFS_ERR_INVALID_HWND` on the null endpoint,
    /// `WFS_ERR_INVALID_POINTER` on a null output slot, `WFS_ERR_INVALID_DATA`
    /// on a zero interval, and `WFS_ERR_INTERNAL_ERROR` when every slot is
    /// claimed; the table is untouched on every failure.
    pub fn set_timer(
        &mut self,
        hwnd: u64,
        context: u64,
        interval: u32,
        timer_id: &mut OutPtr,
    ) -> (r: i32)
        requires
            old(self).inv(),
        ensures
            final(self).inv(),
            hwnd == 0 ==> r == WFS_ERR_INVALID_HWND && *final(self) == *old(self)
                && *final(timer_id) == *old(timer_id),
            hwnd != 0 && !old(timer_id).valid ==> r == WFS_ERR_INVALID_POINTER && *final(self)
                == *old(self) && *final(timer_id) == *old(timer_id),
            hwnd != 0 && old(timer_id).valid && interval == 0 ==> r == WFS_ERR_INVALID_DATA
                && *final(self) == *old(self) && *final(timer_id) == *old(timer_id),
            hwnd != 0 && old(timer_id).valid && interval != 0 ==> {
                &&& final(self)@ == spec_set_timer(old(self)@, hwnd, context).0
                &&& r == spec_set_timer(old(self)@, hwnd, context).1
                &&& r == WFS_SUCCESS ==> *final(timer_id) == (OutPtr {
                    valid: true,
                    value: spec_set_timer(old(self)@, hwnd, context).2 as u64,
                }) && spec_set_timer(old(self)@, hwnd, context).2 != 0
                &&& r != WFS_SUCCESS ==> *final(timer_id) == *old(timer_id)
            },
    {
        if hwnd == 0 {
            return WFS_ERR_INVALID_HWND;
        }
        if !timer_id.valid {
            return WFS_ERR_INVALID_POINTER;
        }
        if interval == 0 {
            return WFS_ERR_INVALID_DATA;
        }
        let n = self.slots.len();
        let mut i: usize = 0;
        while i < n
            invariant
                i <= n,
                n == self.slots@.len(),
                n == TIMER_SLOTS,
                *self == *old(self),
                *timer_id == *old(timer_id),
                old(timer_id).valid,
                hwnd != 0,
                interval != 0,
                forall|j: int| 0 <= j < i ==> (#[trigger] self.slots@[j]) is Some,
            decreases n - i,
        {
            if self.slots[i].is_none() {
                proof {
                    lemma_find_free_at(self@, i as int);
                }
                self.slots.set(i, Some(TimerEntry { hwnd, context }));
                *timer_id = OutPtr { valid: true, value: (i as u64) + 1 };
                return WFS_SUCCESS;
            }
            i = i + 1;
        }
        proof {
            lemma_find_free_none(self@);
        }
        WFS_ERR_INTERNAL_ERROR
    }

    /// Releases the claimed slot named by `id` without firing it. Fails with
    /// `WFS_ERR_INVALID_TIMER` when `id` is zero, out of range, or names a
    /// slot that is already empty — killed, fired, or never claimed.
    pub fn kill_timer(&mut self, id: u16) -> (r: i32)
        requires
            old(self).inv(),
        ensures
            final(self).inv(),
            final(self)@ == spec_kill_timer(old(self)@, id).0,
            r == spec_kill_timer(old(self)@, id).1,
    {
        if id == 0 {
            return WFS_ERR_INVALID_TIMER;
        }
        let idx = (id - 1) as usize;
        if idx >= self.slots.len() {
            return WFS_ERR_INVALID_TIMER;
        }
        if self.slots[idx].is_none() {
            return WFS_ERR_INVALID_TIMER;
        }
        self.slots.set(idx, None);
        WFS_SUCCESS
    }

    /// The one-shot firing: takes the stored entry out of the slot in the same
    /// step, so a racing kill can no longer see it. Returns what must be
    /// posted to the entry's endpoint, or `None` if the slot was already
    /// released.
    pub fn fire_timer(&mut self, id: u16) -> (r: Option<TimerEntry>)
        requires
            old(self).inv(),
        ensures
            final(self).inv(),
            final(self)@ == spec_fire_timer(old(self)@, id).0,
            r == spec_fire_timer(old(self)@, id).1,
    {
        if id == 0 {
            return None;
        }
        let idx = (id - 1) as usize;
        if idx >= self.slots.len() {
            return None;
        }
        let entry = self.slots[idx];
        if entry.is_none() {
            return None;
        }
        self.slots.set(idx, None);
        entry
    }
}

/// A slot claimed by `set_timer` cannot be claimed again before it is
/// released: a second `set_timer` claims a different id or fails.
pub proof fn lemma_claimed_slot_not_reclaimed(
    s: Seq<Option<TimerEntry>>,
    hwnd: u64,
    context: u64,
    hwnd2: u64,
    context2: u64,
)
    requires
        s.len() <= TIMER_SLOTS,
        spec_set_timer(s, hwnd, context).1 == WFS_SUCCESS,
    ensures
        ({
            let s1 = spec_set_timer(s, hwnd, context).0;
            let id = spec_set_timer(s, hwnd, context).2;
            spec_set_timer(s1, hwnd2, context2).1 == WFS_SUCCESS ==> spec_set_timer(
                s1,
                hwnd2,
                context2,
            ).2 != id
        }),
{
    lemma_find_free_props(s);
    let i = find_free(s);
    let s1 = spec_set_timer(s, hwnd, context).0;
    lemma_find_free_props(s1);
    let j = find_free(s1);
    if j != -1 {
        assert(s1[i] is Some);
        assert(j != i);
        assert((i + 1) as u16 as int == i + 1);
        assert((j + 1) as u16 as int == j + 1);
    }
}

/// After a timer fires, killing it fails with `WFS_ERR_INVALID_TIMER`: the
/// firing released the slot already.
pub proof fn lemma_kill_after_fire_fails(s: Seq<Option<TimerEntry>>, id: u16)
    requires
        spec_fire_timer(s, id).1 is Some,
    ensures
        spec_kill_timer(spec_fire_timer(s, id).0, id) == (
            spec_fire_timer(s, id).0,
            WFS_ERR_INVALID_TIMER,
        ),
{
}

/// Killing a slot that was never claimed, or was already released, fails with
/// `WFS_ERR_INVALID_TIMER` and changes nothing.
pub proof fn lemma_kill_unclaimed_fails(s: Seq<Option<TimerEntry>>, id: u16)
    requires
        id == 0 || id as int > s.len() || s[id as int - 1] is None,
    ensures
        spec_kill_timer(s, id) == (s, WFS_ERR_INVALID_TIMER),
{
}

} // verus!
