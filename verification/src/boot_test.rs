//! The host side of the boot test: boot the kernel headless with the boot
//! test on, and pass only if QEMU exits with the clean-boot code *and* the
//! boot marker reached the serial log.
use vstd::prelude::*;
use vstd::string::StringSliceAdditionalSpecFns;
use vstd::string::is_ascii;
use crate::boot::{
    finish_end, finish_line, panic_end, println_wire, qemu_status, BootEnd, EXIT_FAILED, EXIT_SUCCESS,
};
use crate::wire::{lemma_wire_plain, CR, LF};

verus! {

/// QEMU's exit code when the kernel reports a clean boot: `(0x10 << 1) | 1`.
pub const QEMU_EXIT_ON_CLEAN_BOOT: i32 = 33;

/// Seconds after which a headless boot is considered hung.
pub const TEST_TIMEOUT_SECS: u64 = 30;

/// Marker the kernel prints to serial just before asking QEMU to exit.
pub const BOOT_OK_MARKER: &'static str = "[test] boot ok";

/// `needle` occurs in `haystack` as a contiguous run.
pub open spec fn contains_bytes(haystack: Seq<u8>, needle: Seq<u8>) -> bool {
    exists|i: int|
        0 <= i && i + needle.len() <= haystack.len() && #[trigger] haystack.subrange(
            i,
            i + needle.len(),
        ) == needle
}

/// The boot marker's bytes.
pub open spec fn marker_bytes() -> Seq<u8> {
    BOOT_OK_MARKER.spec_bytes()
}

/// The verdict on a boot test: QEMU exited with the clean-boot code and the
/// serial log holds the boot marker.
pub open spec fn boot_test_passed(exit_code: Option<i32>, serial_log: Seq<u8>) -> bool {
    exit_code == Some(QEMU_EXIT_ON_CLEAN_BOOT) && contains_bytes(serial_log, marker_bytes())
}

/// Whether `needle` occurs in `haystack`.
pub fn contains_slice(haystack: &[u8], needle: &[u8]) -> (found: bool)
    ensures
        found == contains_bytes(haystack@, needle@),
{
    let n = needle.len();
    if n == 0 {
        assert(haystack@.subrange(0, 0 + needle@.len() as int) =~= needle@);
        return true;
    }
    if n > haystack.len() {
        return false;
    }
    let last = haystack.len() - n;
    let mut i: usize = 0;
    while i <= last
        invariant
            n == needle@.len(),
            n >= 1,
            last + n == haystack@.len(),
            haystack@.len() <= usize::MAX,
            i <= last + 1,
            forall|k: int| 0 <= k < i ==> #[trigger] haystack@.subrange(k, k + n) != needle@,
        decreases last + 1 - i,
    {
        let mut j: usize = 0;
        let mut same = true;
        while j < n && same
            invariant
                n == needle@.len(),
                i <= last,
                last + n == haystack@.len(),
                haystack@.len() <= usize::MAX,
                j <= n,
                same ==> forall|m: int| 0 <= m < j ==> haystack@[i + m] == needle@[m],
                !same ==> j >= 1 && haystack@[i + j - 1] != needle@[j - 1],
            decreases n - j + (if same { 1int } else { 0int }),
        {
            if haystack[i + j] != needle[j] {
                same = false;
            }
            j = j + 1;
        }
        if same {
            assert(haystack@.subrange(i as int, i + n) =~= needle@);
            return true;
        }
        assert(haystack@.subrange(i as int, i + n)[j - 1] != needle@[j - 1]);
        i = i + 1;
    }
    false
}

/// Whether the serial log shows the boot marker.
pub fn marker_seen(serial_log: &str) -> (seen: bool)
    ensures
        seen == contains_bytes(serial_log.spec_bytes(), marker_bytes()),
{
    contains_slice(serial_log.as_bytes(), BOOT_OK_MARKER.as_bytes())
}

/// The boot test's verdict, from QEMU's exit code (none if it was killed by a
/// signal) and the serial log.
pub fn boot_test_verdict(exit_code: Option<i32>, serial_log: &str) -> (passed: bool)
    ensures
        passed == boot_test_passed(exit_code, serial_log.spec_bytes()),
{
    let seen = marker_seen(serial_log);
    match exit_code {
        Some(code) => code == QEMU_EXIT_ON_CLEAN_BOOT && seen,
        None => false,
    }
}

/// A clean boot under the boot test passes it: the kernel ends by asking QEMU
/// for exactly the exit code the test expects, and the line it prints just
/// before, as it reaches the wire, puts the boot marker in the serial log,
/// whatever else the log holds around it.
pub proof fn lemma_clean_boot_passes(before: Seq<u8>, after: Seq<u8>)
    ensures
        finish_end(true) == BootEnd::ExitQemu(EXIT_SUCCESS),
        qemu_status(EXIT_SUCCESS) == QEMU_EXIT_ON_CLEAN_BOOT,
        boot_test_passed(
            Some(QEMU_EXIT_ON_CLEAN_BOOT),
            before + println_wire(finish_line(true)) + after,
        ),
{
    reveal_strlit("[test] boot ok");
    let m = marker_bytes();
    assert(is_ascii(BOOT_OK_MARKER));
    assert(m =~= Seq::new(BOOT_OK_MARKER@.len(), |i: int| BOOT_OK_MARKER@[i] as u8));
    assert(vstd::utf8::encode_utf8(finish_line(true)) == m);
    assert forall|i: int| 0 <= i < m.len() implies m[i] != LF by {
        assert(BOOT_OK_MARKER@[i] != '\n');
    }
    lemma_wire_plain(m);
    assert(m.push(LF).drop_last() =~= m);
    let out = println_wire(finish_line(true));
    assert(out =~= m + seq![CR, LF]);
    let log = before + out + after;
    let i = before.len() as int;
    assert(log.subrange(i, i + m.len()) =~= m);
}

/// A panic under the boot test fails it, whatever the serial log holds: the
/// kernel asks QEMU for an exit code other than the clean-boot one.
pub proof fn lemma_panic_fails(serial_log: Seq<u8>)
    ensures
        panic_end(true) == BootEnd::ExitQemu(EXIT_FAILED),
        qemu_status(EXIT_FAILED) != QEMU_EXIT_ON_CLEAN_BOOT,
        !boot_test_passed(Some(qemu_status(EXIT_FAILED) as i32), serial_log),
{
}

/// An empty serial log fails the boot test, whatever QEMU's exit code: the
/// marker has to reach the log.
pub proof fn lemma_empty_log_fails(exit_code: Option<i32>)
    ensures
        !boot_test_passed(exit_code, Seq::empty()),
{
    reveal_strlit("[test] boot ok");
    assert(is_ascii(BOOT_OK_MARKER));
    assert(marker_bytes().len() == 14);
}

} // verus!
