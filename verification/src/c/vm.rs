//! Status of the machine that owns a console.

use vstd::prelude::*;

verus! {

/// VM is halted and no HW resources are used
pub const VM_STATUS_HALTED: i32 = 0;

/// Shutdown procedure engaged
pub const VM_STATUS_SHUTDOWN: i32 = 1;

/// VM is running
pub const VM_STATUS_RUNNING: i32 = 2;

/// VM is suspended
pub const VM_STATUS_SUSPENDED: i32 = 3;

} // verus!
