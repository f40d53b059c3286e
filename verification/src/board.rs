//! Exit-status protocol of the QEMU `virt` test device.
//!
//! The device watches one memory-mapped register. A word stored there ends
//! the emulation; the word's bit pattern carries the status that the
//! emulator reports. Nothing here touches memory: each function answers
//! with the store that has to be made, and whoever makes it must afterwards
//! wait for interrupts forever, since control may come back if no emulator
//! is listening.

use vstd::prelude::*;

verus! {

/// Raw word for a clean exit, reported by the emulator as status 0.
pub const EXIT_SUCCESS: u32 = 0x5555;

/// Low half-word that marks a raw word as a failure report.
pub const EXIT_FAILURE_FLAG: u32 = 0x3333;

/// Raw word for the plain failure exit, reported as status 1.
pub const EXIT_FAILURE: u32 = 0x1_3333;

/// Raw word that makes the emulator reset the machine.
pub const EXIT_RESET: u32 = 0x7777;

/// Physical address of the test device's register on the `virt` board.
pub const VIRT_TEST: u64 = 0x10_0000;

/// One word-sized store to a device register.
#[derive(Clone, Copy, Debug, PartialEq, Eq, Structural)]
pub struct DeviceWrite {
    /// Physical address of the register.
    pub addr: u64,
    /// The word to store there.
    pub value: u32,
}

/// The failure word for `code`: the code in the upper half-word, the
/// failure flag in the lower.
pub open spec fn encoded(code: u32) -> u32 {
    (code << 16) | EXIT_FAILURE_FLAG
}

/// Whether `code` is already one of the three raw words of the device.
pub open spec fn is_reserved(code: u32) -> bool {
    code == EXIT_SUCCESS || code == EXIT_FAILURE || code == EXIT_RESET
}

/// The word that reports `code`: a reserved word goes out as it is, any
/// other code is encoded as a failure.
pub open spec fn raw_exit_value(code: u32) -> u32 {
    if is_reserved(code) {
        code
    } else {
        encoded(code)
    }
}

/// Encode the exit code using `EXIT_FAILURE_FLAG`.
///
/// Only the low sixteen bits of `code` survive the shift, so the result is
/// also `(code mod 2^16) * 2^16 + 0x3333`.
pub fn exit_code_encode(code: u32) -> (raw: u32)
    ensures
        raw == encoded(code),
        raw == (code % 0x1_0000) * 0x1_0000 + 0x3333,
{
    proof {
        encoded_is_arithmetic(code);
    }
    (code << 16) | EXIT_FAILURE_FLAG
}

/// A device through which the kernel can end the emulation.
///
/// `report` is the store by which an implementation announces a code; the
/// three methods are bound to it, so that the two shorthands can never
/// drift away from `exit`.
pub trait QEMUExit {
    /// The store that announces `code` on this device.
    spec fn report(&self, code: u32) -> DeviceWrite;

    /// Exit with the specified return code.
    fn exit(&self, code: u32) -> (write: DeviceWrite)
        ensures
            write == self.report(code),
    ;

    /// Exit using `EXIT_SUCCESS`.
    fn exit_success(&self) -> (write: DeviceWrite)
        ensures
            write == self.report(EXIT_SUCCESS),
    ;

    /// Exit using `EXIT_FAILURE`.
    fn exit_failure(&self) -> (write: DeviceWrite)
        ensures
            write == self.report(EXIT_FAILURE),
    ;
}

/// The sifive test device of a 64-bit RISC-V `virt` machine.
#[derive(Clone, Copy, Debug, PartialEq, Eq, Structural)]
pub struct RISCV64 {
    /// Address of the sifive_test mapped device.
    addr: u64,
}

impl RISCV64 {
    /// Address of the register this handle stores to.
    pub closed spec fn register(&self) -> u64 {
        self.addr
    }

    /// Create an instance.
    pub fn new(addr: u64) -> (handle: Self)
        ensures
            handle.register() == addr,
    {
        RISCV64 { addr }
    }
}

impl QEMUExit for RISCV64 {
    open spec fn report(&self, code: u32) -> DeviceWrite {
        DeviceWrite { addr: self.register(), value: raw_exit_value(code) }
    }

    /// Exit with the specified exit code: a reserved word is stored as it
    /// is, any other code is first encoded with the failure flag.
    fn exit(&self, code: u32) -> (write: DeviceWrite)
        ensures
            write.addr == self.register(),
            write.value == raw_exit_value(code),
    {
            let reserved = code == EXIT_SUCCESS || code == EXIT_FAILURE || code == EXIT_RESET;
        let code_new: u32 = if reserved {
            code
        } else {
            exit_code_encode(code)
        };
        DeviceWrite { addr: self.addr, value: code_new }
    }

    fn exit_success(&self) -> (write: DeviceWrite)
        ensures
            write.addr == self.register(),
            write.value == EXIT_SUCCESS,
    {
        self.exit(EXIT_SUCCESS)
    }

    fn exit_failure(&self) -> (write: DeviceWrite)
        ensures
            write.addr == self.register(),
            write.value == EXIT_FAILURE,
    {
        self.exit(EXIT_FAILURE)
    }
}

/// The handle of the `virt` board's test device.
pub fn qemu_exit_handle() -> (handle: RISCV64)
    ensures
        handle.register() == VIRT_TEST,
{
    RISCV64::new(VIRT_TEST)
}

/// The shift-and-or of `encoded` keeps the low sixteen bits of the code and
/// nothing else: in plain arithmetic it is
/// `(code mod 2^16) * 2^16 + 0x3333`.
pub proof fn encoded_is_arithmetic(code: u32)
    ensures
        encoded(code) == (code % 0x1_0000) * 0x1_0000 + 0x3333,
{
    assert(((code << 16) | 0x3333u32) == (code % 0x1_0000) * 0x1_0000 + 0x3333) by (bit_vector);
}

/// The failure word is the encoding of code 1: writing `EXIT_FAILURE`
/// as it is and encoding 1 afresh put the same word on the device.
pub proof fn failure_word_is_encoded_one()
    ensures
        EXIT_FAILURE == encoded(1),
        raw_exit_value(1) == EXIT_FAILURE,
        raw_exit_value(EXIT_FAILURE) == EXIT_FAILURE,
{
    encoded_is_arithmetic(1);
}

/// Each reserved word reports itself.
pub proof fn reserved_words_are_fixed(code: u32)
    requires
        is_reserved(code),
    ensures
        raw_exit_value(code) == code,
        raw_exit_value(raw_exit_value(code)) == raw_exit_value(code),
{
}

/// A code that is not reserved always goes out as a failure word, and
/// never as the success or the reset word: the low half of an encoded word
/// is the failure flag, which differs from both.
pub proof fn unreserved_codes_report_failure(code: u32)
    requires
        !is_reserved(code),
    ensures
        raw_exit_value(code) == encoded(code),
        raw_exit_value(code) % 0x1_0000 == EXIT_FAILURE_FLAG,
        raw_exit_value(code) != EXIT_SUCCESS,
        raw_exit_value(code) != EXIT_RESET,
{
    encoded_is_arithmetic(code);
}

/// The device is told of success for the success code and for no other.
pub proof fn success_only_for_success(code: u32)
    ensures
        raw_exit_value(code) == EXIT_SUCCESS <==> code == EXIT_SUCCESS,
{
    if !is_reserved(code) {
        unreserved_codes_report_failure(code);
    }
}

} // verus!
