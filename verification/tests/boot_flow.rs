use peekos::boot::{
    boot_banner, finish, on_panic, qemu_exit_status, BootEnd, EXIT_FAILED, EXIT_SUCCESS,
    QEMU_EXIT_PORT,
};
use peekos::boot_test::{
    boot_test_verdict, contains_slice, marker_seen, BOOT_OK_MARKER, QEMU_EXIT_ON_CLEAN_BOOT,
    TEST_TIMEOUT_SECS,
};
use peekos::wire::to_wire;

fn println_bytes(line: &str) -> Vec<u8> {
    let mut text = line.as_bytes().to_vec();
    text.push(b'\n');
    to_wire(&text)
}

#[test]
fn banner_lines() {
    assert_eq!(
        boot_banner(),
        [
            "",
            "PeekOS - a glass box",
            "[boot] serial console up (COM1, 38400 8N1)",
            "[boot] interrupts masked; no IDT yet",
        ]
    );
}

#[test]
fn finish_halts_outside_the_boot_test() {
    assert_eq!(finish(false), ("[boot] nothing left to do - halting", BootEnd::Halt));
    assert_eq!(on_panic(false), BootEnd::Halt);
}

#[test]
fn finish_reports_and_exits_under_the_boot_test() {
    assert_eq!(finish(true), ("[test] boot ok", BootEnd::ExitQemu(EXIT_SUCCESS)));
    assert_eq!(on_panic(true), BootEnd::ExitQemu(EXIT_FAILED));
}

#[test]
fn exit_requests_and_codes() {
    assert_eq!(EXIT_SUCCESS, 0x10);
    assert_eq!(EXIT_FAILED, 0x11);
    assert_eq!(QEMU_EXIT_PORT, 0xF4);
    assert_eq!(qemu_exit_status(EXIT_SUCCESS), 33);
    assert_eq!(qemu_exit_status(EXIT_FAILED), 35);
    assert_eq!(qemu_exit_status(0), 1);
    assert_eq!(qemu_exit_status(u32::MAX), 0x1_FFFF_FFFF);
    assert_eq!(QEMU_EXIT_ON_CLEAN_BOOT, 33);
    assert_eq!(TEST_TIMEOUT_SECS, 30);
}

#[test]
fn verdict_needs_code_and_marker() {
    let log = "PeekOS - a glass box\r\n[test] boot ok\r\n";
    assert!(boot_test_verdict(Some(33), log));
    assert!(!boot_test_verdict(Some(35), log));
    assert!(!boot_test_verdict(Some(0), log));
    assert!(!boot_test_verdict(None, log));
    assert!(!boot_test_verdict(Some(33), "[boot] nothing left to do - halting\r\n"));
    assert!(!boot_test_verdict(Some(33), ""));
    assert!(!boot_test_verdict(Some(33), "[test] boot o"));
}

#[test]
fn marker_anywhere_in_the_log() {
    assert!(marker_seen("[test] boot ok"));
    assert!(marker_seen("xx[test] boot okyy"));
    assert!(!marker_seen("[TEST] boot ok"));
    assert_eq!(BOOT_OK_MARKER, "[test] boot ok");
}

#[test]
fn substring_search_edges() {
    assert!(contains_slice(b"abc", b""));
    assert!(contains_slice(b"", b""));
    assert!(!contains_slice(b"", b"a"));
    assert!(!contains_slice(b"ab", b"abc"));
    assert!(contains_slice(b"abc", b"abc"));
    assert!(contains_slice(b"aaab", b"aab"));
    assert!(contains_slice(b"xyzab", b"ab"));
    assert!(!contains_slice(b"abab", b"abb"));
}

#[test]
fn clean_boot_transcript_passes_the_test() {
    let mut log = Vec::new();
    for line in boot_banner() {
        log.extend(println_bytes(line));
    }
    let (last, end) = finish(true);
    log.extend(println_bytes(last));
    let log = String::from_utf8(log).unwrap();
    let code = match end {
        BootEnd::ExitQemu(request) => Some(qemu_exit_status(request) as i32),
        BootEnd::Halt => None,
    };
    assert!(boot_test_verdict(code, &log));
}

#[test]
fn panic_fails_the_test_even_after_the_marker() {
    let log = "[test] boot ok\r\n\r\n*** KERNEL PANIC ***\r\n";
    let code = match on_panic(true) {
        BootEnd::ExitQemu(request) => Some(qemu_exit_status(request) as i32),
        BootEnd::Halt => None,
    };
    assert_eq!(code, Some(35));
    assert!(!boot_test_verdict(code, log));
}

#[test]
fn halting_boot_never_shows_the_marker() {
    let (last, end) = finish(false);
    assert_eq!(end, BootEnd::Halt);
    let log = String::from_utf8(println_bytes(last)).unwrap();
    assert!(!marker_seen(&log));
}
