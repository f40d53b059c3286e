//! SBI call wrappers.
//!
//! A call into the firmware is a trap taken with five registers set up by
//! convention. The functions here lay those registers out; taking the trap
//! is left to the caller, who finds the firmware's answer in `x10` of the
//! frame that comes back.

use vstd::prelude::*;
use crate::board::{qemu_exit_handle, DeviceWrite, QEMUExit, EXIT_FAILURE, VIRT_TEST};

verus! {

/// Extension id of the legacy console-putchar call.
pub const SBI_CONSOLE_PUTCHAR: usize = 1;

/// The registers that the firmware reads when the trap is taken, and the
/// one it answers in.
#[derive(Clone, Copy, Debug, PartialEq, Eq, Structural)]
pub struct CallFrame {
    /// First argument on the way in, the firmware's result on the way out.
    pub x10: usize,
    /// Second argument.
    pub x11: usize,
    /// Third argument.
    pub x12: usize,
    /// Reserved by the convention: zero.
    pub x16: usize,
    /// Which call is being made.
    pub x17: usize,
}

/// The frame of the call `which(arg0, arg1, arg2)`.
pub open spec fn call_frame(which: usize, arg0: usize, arg1: usize, arg2: usize) -> CallFrame {
    CallFrame { x10: arg0, x11: arg1, x12: arg2, x16: 0, x17: which }
}

/// The frame that puts the character with code `c` on the console.
pub open spec fn putchar_frame(c: usize) -> CallFrame {
    call_frame(SBI_CONSOLE_PUTCHAR, c, 0, 0)
}

/// General SBI call: the three arguments go to `x10`, `x11` and `x12`, the
/// call's number to `x17`, and `x16` is cleared.
pub fn sbi_call(which: usize, arg0: usize, arg1: usize, arg2: usize) -> (frame: CallFrame)
    ensures
        frame == call_frame(which, arg0, arg1, arg2),
{
    CallFrame { x10: arg0, x11: arg1, x12: arg2, x16: 0, x17: which }
}

/// What a call returned: the value the firmware left in `x10`, untouched.
pub fn sbi_ret(after: &CallFrame) -> (ret: usize)
    ensures
        ret == after.x10,
{
    after.x10
}

/// Use an SBI call to put a character on the console.
pub fn console_putchar(c: usize) -> (frame: CallFrame)
    ensures
        frame == putchar_frame(c),
{
    sbi_call(SBI_CONSOLE_PUTCHAR, c, 0, 0)
}

/// Shut the kernel down as failed: the store of the failure word to the
/// board's test device.
pub fn shutdown() -> (write: DeviceWrite)
    ensures
        write == (DeviceWrite { addr: VIRT_TEST, value: EXIT_FAILURE }),
{
    qemu_exit_handle().exit_failure()
}

} // verus!
