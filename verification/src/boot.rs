//! What the kernel says on the serial console while it boots, and how a boot
//! ends: halted, or, under the boot test, by asking QEMU to exit.
//!
//! QEMU's `isa-debug-exit` device turns a guest write of `v` to its port into
//! an exit of the QEMU process with status `(v << 1) | 1`.
use vstd::prelude::*;
use crate::wire::{wire, LF};

verus! {

/// The port of QEMU's `isa-debug-exit` device.
pub const QEMU_EXIT_PORT: u16 = 0xF4;

/// Clean boot. Makes the QEMU process exit with code 33.
pub const EXIT_SUCCESS: u32 = 0x10;

/// Something went wrong (e.g. a panic). QEMU process exits with code 35.
pub const EXIT_FAILED: u32 = 0x11;

/// How a boot ends once the kernel has nothing left to do.
#[derive(Clone, Copy, Debug, PartialEq, Eq, Structural)]
pub enum BootEnd {
    /// Park the CPU for good.
    Halt,
    /// Write this request to the exit device, then park the CPU in case the
    /// device is not there.
    ExitQemu(u32),
}

/// The exit status of the QEMU process after the guest writes `request` to
/// the exit device.
pub open spec fn qemu_status(request: u32) -> int {
    2 * request + 1
}

/// The exit status of the QEMU process after the guest writes `request` to
/// the exit device: `(request << 1) | 1`.
pub fn qemu_exit_status(request: u32) -> (status: u64)
    ensures
        status == qemu_status(request),
{
    let r: u64 = request as u64;
    assert(((r << 1u64) | 1u64) == 2 * r + 1) by (bit_vector)
        requires
            r < 0x1_0000_0000u64,
    ;
    (r << 1u64) | 1u64
}

/// The last line a boot prints.
pub open spec fn finish_line(boot_test: bool) -> Seq<char> {
    if boot_test {
        "[test] boot ok"@
    } else {
        "[boot] nothing left to do - halting"@
    }
}

/// How a boot ends.
pub open spec fn finish_end(boot_test: bool) -> BootEnd {
    if boot_test {
        BootEnd::ExitQemu(EXIT_SUCCESS)
    } else {
        BootEnd::Halt
    }
}

/// What a panic ends in.
pub open spec fn panic_end(boot_test: bool) -> BootEnd {
    if boot_test {
        BootEnd::ExitQemu(EXIT_FAILED)
    } else {
        BootEnd::Halt
    }
}

/// The bytes that reach the wire when the kernel prints `line` and a newline.
pub open spec fn println_wire(line: Seq<char>) -> Seq<u8> {
    wire(vstd::utf8::encode_utf8(line).push(LF))
}

/// The lines the kernel prints once the serial console is up, before it
/// finishes: a blank line, then the banner.
pub fn boot_banner() -> (lines: [&'static str; 4])
    ensures
        lines[0]@ == ""@,
        lines[1]@ == "PeekOS - a glass box"@,
        lines[2]@ == "[boot] serial console up (COM1, 38400 8N1)"@,
        lines[3]@ == "[boot] interrupts masked; no IDT yet"@,
{
    [
        "",
        "PeekOS - a glass box",
        "[boot] serial console up (COM1, 38400 8N1)",
        "[boot] interrupts masked; no IDT yet",
    ]
}

/// How this boot ends once there is nothing left to do: the line to print and
/// what to do after it. Under the boot test, report a clean boot and ask QEMU
/// to exit; otherwise halt.
pub fn finish(boot_test: bool) -> (out: (&'static str, BootEnd))
    ensures
        out.0@ == finish_line(boot_test),
        out.1 == finish_end(boot_test),
{
    if boot_test {
        ("[test] boot ok", BootEnd::ExitQemu(EXIT_SUCCESS))
    } else {
        ("[boot] nothing left to do - halting", BootEnd::Halt)
    }
}

/// How a panic ends, once its report is printed: under the boot test the
/// test fails through QEMU's exit code; otherwise the kernel halts.
pub fn on_panic(boot_test: bool) -> (end: BootEnd)
    ensures
        end == panic_end(boot_test),
{
    if boot_test {
        BootEnd::ExitQemu(EXIT_FAILED)
    } else {
        BootEnd::Halt
    }
}

} // verus!
