//! Result codes returned by every manager entry point.
//!
//! Success is `WFS_SUCCESS` (zero); every error is a distinct negative code.

use vstd::prelude::*;

verus! {

pub const WFS_SUCCESS: i32 = 0;

/// The manager was already started by an earlier start-up call.
pub const WFS_ERR_ALREADY_STARTED: i32 = -1;
/// A blocking call was canceled while it waited for its completion.
pub const WFS_ERR_CANCELED: i32 = -4;
/// An internal resource (session slot, timer slot, provider export) is
/// missing or exhausted.
pub const WFS_ERR_INTERNAL_ERROR: i32 = -15;
/// The application handle is zero, out of range, or not claimed.
pub const WFS_ERR_INVALID_APP_HANDLE: i32 = -17;
/// The buffer is not a live root allocation of the heap.
pub const WFS_ERR_INVALID_BUFFER: i32 = -18;
/// The service handle is zero, out of range, or names a free slot.
pub const WFS_ERR_INVALID_HSERVICE: i32 = -22;
/// The provider token names no open session's module.
pub const WFS_ERR_INVALID_HPROVIDER: i32 = -23;
/// The target endpoint of a timer is the null endpoint.
pub const WFS_ERR_INVALID_HWND: i32 = -24;
/// An output slot that the call must write through is the null slot.
pub const WFS_ERR_INVALID_POINTER: i32 = -26;
/// The configuration store has no provider entry for the logical name.
pub const WFS_ERR_INVALID_SERVPROV: i32 = -29;
/// The timer id is zero or its slot is empty.
pub const WFS_ERR_INVALID_TIMER: i32 = -30;
/// The named thread has no blocking call in progress.
pub const WFS_ERR_NO_BLOCKING_CALL: i32 = -33;
/// The manager has not been started, or was cleaned up.
pub const WFS_ERR_NOT_STARTED: i32 = -39;
/// The calling thread already has a blocking call in progress.
pub const WFS_ERR_OP_IN_PROGRESS: i32 = -41;
/// Reserving the requested bytes would push the heap over its quota.
pub const WFS_ERR_OUT_OF_MEMORY: i32 = -42;
/// A timer interval of zero is never accepted.
pub const WFS_ERR_INVALID_DATA: i32 = -53;
/// Every application-handle slot is claimed.
pub const WFS_ERR_NO_MORE_HANDLES: i32 = -54;

/// Allocation flag: the new buffer is zero-initialized.
pub const WFS_MEM_ZEROINIT: u32 = 2;

} // verus!
