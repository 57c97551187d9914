//! The application-handle table.
//!
//! An application handle is a nonzero index into a fixed array of claim bits.
//! Creating a handle claims the first free slot; destroying it clears the
//! slot, and fails for the zero handle, an out-of-range handle, or a handle
//! whose slot is not claimed.

use vstd::prelude::*;

use crate::errors::{WFS_ERR_INVALID_APP_HANDLE, WFS_ERR_NO_MORE_HANDLES, WFS_SUCCESS};
use crate::seq_find::{find_first, lemma_find_first_at, lemma_find_first_none};

verus! {

/// How many application handles can be claimed at once.
pub const APP_HANDLE_SLOTS: usize = 8192;

/// The predicate "this slot is free".
pub open spec fn app_slot_free() -> spec_fn(bool) -> bool {
    |claimed: bool| !claimed
}

/// What `create_app_handle` does to the claim bits: claims the first free
/// slot and hands out its nonzero handle, or fails with
/// `WFS_ERR_NO_MORE_HANDLES` when every slot is claimed.
pub open spec fn spec_create_app_handle(s: Seq<bool>) -> (Seq<bool>, Result<u32, i32>) {
    let i = find_first(s, app_slot_free());
    if i == -1 {
        (s, Err(WFS_ERR_NO_MORE_HANDLES))
    } else {
        (s.update(i, true), Ok((i + 1) as u32))
    }
}

/// What `destroy_app_handle` does to the claim bits: clears the claimed slot
/// of the handle, and fails with `WFS_ERR_INVALID_APP_HANDLE` when the handle
/// is zero, out of range, or unclaimed.
pub open spec fn spec_destroy_app_handle(s: Seq<bool>, h_app: u32) -> (Seq<bool>, i32) {
    if h_app == 0 || h_app as int > s.len() || !s[h_app as int - 1] {
        (s, WFS_ERR_INVALID_APP_HANDLE)
    } else {
        (s.update(h_app as int - 1, false), WFS_SUCCESS)
    }
}

/// The application-handle table.
pub struct AppHandleTable {
    slots: Vec<bool>,
}

impl View for AppHandleTable {
    type V = Seq<bool>;

    closed spec fn view(&self) -> Seq<bool> {
        self.slots@
    }
}

impl AppHandleTable {
    /// Well-formedness: the table has exactly `APP_HANDLE_SLOTS` slots.
    pub open spec fn inv(&self) -> bool {
        self@.len() == APP_HANDLE_SLOTS
    }

    /// A fresh table: every slot free.
    pub fn new() -> (r: AppHandleTable)
        ensures
            r.inv(),
            forall|j: int| 0 <= j < r@.len() ==> !(#[trigger] r@[j]),
    {
        let mut slots: Vec<bool> = Vec::with_capacity(APP_HANDLE_SLOTS);
        let mut i: usize = 0;
        while i < APP_HANDLE_SLOTS
            invariant
                i <= APP_HANDLE_SLOTS,
                slots@.len() == i,
                forall|j: int| 0 <= j < i ==> !(#[trigger] slots@[j]),
            decreases APP_HANDLE_SLOTS - i,
        {
            slots.push(false);
            i = i + 1;
        }
        AppHandleTable { slots }
    }

    /// Claims the first free slot and returns its nonzero handle; fails with
    /// `WFS_ERR_NO_MORE_HANDLES` when every slot is claimed.
    pub fn create_app_handle(&mut self) -> (r: Result<u32, i32>)
        requires
            old(self).inv(),
        ensures
            final(self).inv(),
            final(self)@ == spec_create_app_handle(old(self)@).0,
            r == spec_create_app_handle(old(self)@).1,
            r is Ok ==> r->Ok_0 != 0,
    {
        let n = self.slots.len();
        let mut i: usize = 0;
        while i < n
            invariant
                i <= n,
                n == self.slots@.len(),
                n == APP_HANDLE_SLOTS,
                *self == *old(self),
                forall|j: int| 0 <= j < i ==> (#[trigger] self.slots@[j]),
            decreases n - i,
        {
            if !self.slots[i] {
                proof {
                    lemma_find_first_at(self@, app_slot_free(), i as int);
                }
                self.slots.set(i, true);
                return Ok((i as u32) + 1);
            }
            i = i + 1;
        }
        proof {
            lemma_find_first_none(self@, app_slot_free());
        }
        Err(WFS_ERR_NO_MORE_HANDLES)
    }

    /// Clears the claimed slot of `h_app`; fails with
    /// `WFS_ERR_INVALID_APP_HANDLE` when the handle is zero, out of range, or
    /// unclaimed — in particular when it was already destroyed.
    pub fn destroy_app_handle(&mut self, h_app: u32) -> (r: i32)
        requires
            old(self).inv(),
        ensures
            final(self).inv(),
            final(self)@ == spec_destroy_app_handle(old(self)@, h_app).0,
            r == spec_destroy_app_handle(old(self)@, h_app).1,
    {
        if h_app == 0 {
            return WFS_ERR_INVALID_APP_HANDLE;
        }
        let idx = (h_app - 1) as usize;
        if idx >= self.slots.len() {
            return WFS_ERR_INVALID_APP_HANDLE;
        }
        if !self.slots[idx] {
            return WFS_ERR_INVALID_APP_HANDLE;
        }
        self.slots.set(idx, false);
        WFS_SUCCESS
    }

    /// Whether `h_app` names a claimed slot.
    pub fn is_claimed(&self, h_app: u32) -> (r: bool)
        ensures
            r == (h_app != 0 && h_app as int <= self@.len() && self@[h_app as int - 1]),
    {
        if h_app == 0 {
            return false;
        }
        let idx = (h_app - 1) as usize;
        if idx >= self.slots.len() {
            return false;
        }
        self.slots[idx]
    }
}

/// A destroyed handle stays invalid: destroying it again fails with
/// `WFS_ERR_INVALID_APP_HANDLE` and changes nothing.
pub proof fn lemma_destroy_twice_fails(s: Seq<bool>, h_app: u32)
    requires
        spec_destroy_app_handle(s, h_app).1 == WFS_SUCCESS,
    ensures
        spec_destroy_app_handle(spec_destroy_app_handle(s, h_app).0, h_app) == (
            spec_destroy_app_handle(s, h_app).0,
            WFS_ERR_INVALID_APP_HANDLE,
        ),
{
}

} // verus!
