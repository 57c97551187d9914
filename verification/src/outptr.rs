//! A nullable output slot.
//!
//! Several entry points hand their result back through an out-parameter that
//! a caller may pass as the null pointer. `OutPtr` stands for such a slot: a
//! null slot (`valid == false`) can receive nothing, and a call that must
//! write through it fails up front instead.

use vstd::prelude::*;

verus! {

#[derive(Clone, Copy, PartialEq, Eq, Structural, Debug)]
pub struct OutPtr {
    /// Whether the slot exists at all; a null out-pointer has `valid == false`.
    pub valid: bool,
    /// The value currently held by the slot; meaningful only when `valid`.
    pub value: u64,
}

impl OutPtr {
    /// The null out-pointer: nothing can be written through it.
    pub fn null() -> (r: OutPtr)
        ensures
            r == (OutPtr { valid: false, value: 0u64 }),
    {
        OutPtr { valid: false, value: 0 }
    }

    /// A fresh writable slot, initially holding zero.
    pub fn new() -> (r: OutPtr)
        ensures
            r == (OutPtr { valid: true, value: 0u64 }),
    {
        OutPtr { valid: true, value: 0 }
    }
}

} // verus!
