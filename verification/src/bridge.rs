//! The blocking-call bridge: which threads wait, and how a wait ends.
//!
//! A synchronous wrapper inserts its calling thread into the blocked-thread
//! set before it starts waiting, so a thread can have at most one blocking
//! call in progress; a second one is rejected. Cancellation only flips the
//! thread's cancel flag — the waiting thread itself observes the flag on its
//! next poll step, leaves the set, and reports `WFS_ERR_CANCELED`. A wait
//! otherwise ends when the call's own completion record arrives.

use vstd::prelude::*;

use crate::seq_find::{find_first, lemma_find_first_at, lemma_find_first_none, lemma_find_first_props};

verus! {

/// One waiting thread and whether its cancellation was requested.
#[derive(Clone, Copy, PartialEq, Eq, Structural, Debug)]
pub struct BlockedThread {
    pub thread: u32,
    pub cancel: bool,
}

/// The result record a completion message carries back to a waiting call.
#[derive(Clone, Copy, PartialEq, Eq, Structural, Debug)]
pub struct CompletionRecord {
    pub h_service: u16,
    pub request_id: u32,
    pub result: i32,
}

/// What one poll step of a waiting thread decides.
#[derive(Clone, Copy, PartialEq, Eq, Structural, Debug)]
pub enum SyncStep {
    /// Nothing arrived yet: poll again.
    Continue,
    /// The wait was canceled; the thread is no longer blocked.
    Canceled,
    /// The completion arrived with this result; the thread is no longer
    /// blocked.
    Done(i32),
}

/// The predicate "this entry belongs to the given thread".
pub open spec fn thread_matches(t: u32) -> spec_fn(BlockedThread) -> bool {
    |e: BlockedThread| e.thread == t
}

/// Whether thread `t` has a blocking call in progress.
pub open spec fn is_blocked(s: Seq<BlockedThread>, t: u32) -> bool {
    find_first(s, thread_matches(t)) != -1
}

/// Whether thread `t` is blocked with its cancel flag set.
pub open spec fn cancel_requested(s: Seq<BlockedThread>, t: u32) -> bool {
    let i = find_first(s, thread_matches(t));
    i != -1 && s[i].cancel
}

/// What entering a blocking call does: a thread not yet waiting is added with
/// a clear cancel flag; a thread already waiting is rejected.
pub open spec fn spec_block(s: Seq<BlockedThread>, t: u32) -> (Seq<BlockedThread>, bool) {
    if is_blocked(s, t) {
        (s, false)
    } else {
        (s.push(BlockedThread { thread: t, cancel: false }), true)
    }
}

/// What leaving a blocking call does: the thread's entry is removed.
pub open spec fn spec_unblock(s: Seq<BlockedThread>, t: u32) -> (Seq<BlockedThread>, bool) {
    let i = find_first(s, thread_matches(t));
    if i == -1 {
        (s, false)
    } else {
        (s.remove(i), true)
    }
}

/// What a cancellation request does: sets the cancel flag of a waiting
/// thread, and reports `false` for a thread that is not waiting.
pub open spec fn spec_request_cancel(s: Seq<BlockedThread>, t: u32) -> (Seq<BlockedThread>, bool) {
    let i = find_first(s, thread_matches(t));
    if i == -1 {
        (s, false)
    } else {
        (s.update(i, BlockedThread { thread: t, cancel: true }), true)
    }
}

/// What one poll step of the waiting thread `t` decides, given what its
/// call-scoped completion endpoint received so far: cancellation wins, then a
/// delivered completion ends the wait with its result, otherwise the wait
/// goes on. The thread leaves the set exactly when the wait ends.
pub open spec fn spec_sync_step(
    s: Seq<BlockedThread>,
    t: u32,
    received: Option<CompletionRecord>,
) -> (Seq<BlockedThread>, SyncStep) {
    if !is_blocked(s, t) {
        (s, SyncStep::Canceled)
    } else if cancel_requested(s, t) {
        (spec_unblock(s, t).0, SyncStep::Canceled)
    } else {
        match received {
            Some(rec) => (spec_unblock(s, t).0, SyncStep::Done(rec.result)),
            None => (s, SyncStep::Continue),
        }
    }
}

/// The blocked-thread set.
pub struct BlockedThreadSet {
    entries: Vec<BlockedThread>,
}

impl View for BlockedThreadSet {
    type V = Seq<BlockedThread>;

    closed spec fn view(&self) -> Seq<BlockedThread> {
        self.entries@
    }
}

impl BlockedThreadSet {
    /// Well-formedness: a thread appears at most once.
    pub open spec fn inv(&self) -> bool {
        forall|i: int, j: int|
            0 <= i < j < self@.len() ==> (#[trigger] self@[i]).thread != (
            #[trigger] self@[j]).thread
    }

    /// A fresh set: no thread is waiting.
    pub fn new() -> (r: BlockedThreadSet)
        ensures
            r.inv(),
            r@.len() == 0,
    {
        BlockedThreadSet { entries: Vec::new() }
    }

    /// The index of thread `t`'s entry, if it is waiting.
    fn find_thread(&self, t: u32) -> (r: Option<usize>)
        ensures
            r is Some ==> find_first(self@, thread_matches(t)) == r->Some_0 as int,
            r is None ==> find_first(self@, thread_matches(t)) == -1,
    {
        let n = self.entries.len();
        let mut i: usize = 0;
        while i < n
            invariant
                i <= n,
                n == self.entries@.len(),
                forall|j: int| 0 <= j < i ==> (#[trigger] self.entries@[j]).thread != t,
            decreases n - i,
        {
            if self.entries[i].thread == t {
                proof {
                    lemma_find_first_at(self@, thread_matches(t), i as int);
                }
                return Some(i);
            }
            i = i + 1;
        }
        proof {
            lemma_find_first_none(self@, thread_matches(t));
        }
        None
    }

    /// Whether thread `t` has a blocking call in progress; never mutates.
    pub fn is_blocking(&self, t: u32) -> (r: bool)
        ensures
            r == is_blocked(self@, t),
    {
        self.find_thread(t).is_some()
    }

    /// Whether thread `t`'s cancel flag is set.
    pub fn is_cancel_requested(&self, t: u32) -> (r: bool)
        ensures
            r == cancel_requested(self@, t),
    {
        proof {
            lemma_find_first_props(self@, thread_matches(t));
        }
        match self.find_thread(t) {
            Some(i) => self.entries[i].cancel,
            None => false,
        }
    }

    /// Marks thread `t` as entering a blocking call; rejected if it already
    /// has one in progress.
    pub fn block(&mut self, t: u32) -> (r: bool)
        requires
            old(self).inv(),
        ensures
            final(self).inv(),
            final(self)@ == spec_block(old(self)@, t).0,
            r == spec_block(old(self)@, t).1,
    {
        proof {
            lemma_find_first_props(self@, thread_matches(t));
        }
        if self.find_thread(t).is_some() {
            return false;
        }
        self.entries.push(BlockedThread { thread: t, cancel: false });
        true
    }

    /// Removes thread `t` from the set when its wait ends.
    pub fn unblock(&mut self, t: u32) -> (r: bool)
        requires
            old(self).inv(),
        ensures
            final(self).inv(),
            final(self)@ == spec_unblock(old(self)@, t).0,
            r == spec_unblock(old(self)@, t).1,
    {
        proof {
            lemma_find_first_props(self@, thread_matches(t));
        }
        let idx = match self.find_thread(t) {
            Some(idx) => idx,
            None => {
                return false;
            },
        };
        let ghost old_entries = self@;
        self.entries.remove(idx);
        proof {
            old_entries.remove_ensures(idx as int);
            assert forall|i: int, j: int| 0 <= i < j < self@.len() implies (
            #[trigger] self@[i]).thread != (#[trigger] self@[j]).thread by {
                let i0 = if i < idx as int {
                    i
                } else {
                    i + 1
                };
                let j0 = if j < idx as int {
                    j
                } else {
                    j + 1
                };
                assert(self@[i] == old_entries[i0]);
                assert(self@[j] == old_entries[j0]);
            }
        }
        true
    }

    /// Sets the cancel flag of a waiting thread `t`; reports `false` when `t`
    /// is not waiting.
    pub fn request_cancel(&mut self, t: u32) -> (r: bool)
        requires
            old(self).inv(),
        ensures
            final(self).inv(),
            final(self)@ == spec_request_cancel(old(self)@, t).0,
            r == spec_request_cancel(old(self)@, t).1,
    {
        proof {
            lemma_find_first_props(self@, thread_matches(t));
        }
        let idx = match self.find_thread(t) {
            Some(idx) => idx,
            None => {
                return false;
            },
        };
        self.entries.set(idx, BlockedThread { thread: t, cancel: true });
        true
    }

    /// One poll step of the waiting thread `t`: observes its cancel flag and
    /// what the call's completion endpoint received, ends the wait when either
    /// says so, and removes the thread from the set exactly then.
    pub fn sync_step(&mut self, t: u32, received: Option<CompletionRecord>) -> (r: SyncStep)
        requires
            old(self).inv(),
        ensures
            final(self).inv(),
            final(self)@ == spec_sync_step(old(self)@, t, received).0,
            r == spec_sync_step(old(self)@, t, received).1,
    {
        if !self.is_blocking(t) {
            return SyncStep::Canceled;
        }
        if self.is_cancel_requested(t) {
            self.unblock(t);
            return SyncStep::Canceled;
        }
        match received {
            Some(rec) => {
                self.unblock(t);
                SyncStep::Done(rec.result)
            },
            None => SyncStep::Continue,
        }
    }
}

/// Leaving a blocking call right after entering it restores the set: the
/// entry a successful block pushed is exactly the one unblock removes.
pub proof fn lemma_unblock_after_block(s: Seq<BlockedThread>, t: u32)
    requires
        !is_blocked(s, t),
    ensures
        spec_unblock(spec_block(s, t).0, t).0 == s,
        spec_unblock(spec_block(s, t).0, t).1,
{
    let s1 = s.push(BlockedThread { thread: t, cancel: false });
    lemma_find_first_props(s, thread_matches(t));
    assert(thread_matches(t)(s1[s.len() as int]));
    assert forall|j: int| 0 <= j < s.len() implies !thread_matches(t)(#[trigger] s1[j]) by {
        assert(s1[j] == s[j]);
    }
    lemma_find_first_at(s1, thread_matches(t), s.len() as int);
    assert(s1.remove(s.len() as int) =~= s);
}

/// A thread that already has a blocking call in progress cannot enter a
/// second one: the second attempt is rejected and changes nothing.
pub proof fn lemma_second_blocking_call_rejected(s: Seq<BlockedThread>, t: u32)
    requires
        spec_block(s, t).1,
    ensures
        spec_block(spec_block(s, t).0, t) == (spec_block(s, t).0, false),
{
    let s1 = spec_block(s, t).0;
    lemma_find_first_props(s1, thread_matches(t));
    if find_first(s1, thread_matches(t)) == -1 {
        assert(thread_matches(t)(s1[s1.len() - 1]));
    }
}

/// Requesting cancellation never ends the wait by itself and never touches
/// any other thread's entry: it only sets the named thread's flag.
pub proof fn lemma_cancel_only_flips_flag(s: Seq<BlockedThread>, t: u32)
    requires
        spec_request_cancel(s, t).1,
    ensures
        is_blocked(spec_request_cancel(s, t).0, t),
        cancel_requested(spec_request_cancel(s, t).0, t),
        spec_request_cancel(s, t).0.len() == s.len(),
        forall|j: int|
            0 <= j < s.len() && (#[trigger] s[j]).thread != t ==> spec_request_cancel(s, t).0[j]
                == s[j],
{
    let i = find_first(s, thread_matches(t));
    lemma_find_first_props(s, thread_matches(t));
    let s1 = spec_request_cancel(s, t).0;
    assert(thread_matches(t)(s1[i]));
    lemma_find_first_at_helper(s, t, i);
}

/// After the flag is set at the found index, the same index is still the
/// first match for the thread.
proof fn lemma_find_first_at_helper(s: Seq<BlockedThread>, t: u32, i: int)
    requires
        0 <= i < s.len(),
        find_first(s, thread_matches(t)) == i,
    ensures
        find_first(s.update(i, BlockedThread { thread: t, cancel: true }), thread_matches(t)) == i,
{
    lemma_find_first_props(s, thread_matches(t));
    let s1 = s.update(i, BlockedThread { thread: t, cancel: true });
    assert forall|j: int| 0 <= j < i implies !thread_matches(t)(#[trigger] s1[j]) by {
        lemma_find_first_first(s, thread_matches(t), j);
    }
    lemma_find_first_at(s1, thread_matches(t), i);
}

/// No index before the first match matches.
proof fn lemma_find_first_first(s: Seq<BlockedThread>, p: spec_fn(BlockedThread) -> bool, j: int)
    requires
        0 <= j < find_first(s, p),
    ensures
        !p(s[j]),
    decreases s.len(),
{
    lemma_find_first_props(s, p);
    let rest = s.subrange(1, s.len() as int);
    if j == 0 {
        assert(!p(s[0]));
    } else {
        lemma_find_first_first(rest, p, j - 1);
        assert(s[j] == rest[j - 1]);
    }
}

} // verus!
