# peekos

PeekOS is a small, legible x86-64 operating system developed under QEMU. This
crate holds the parts of it that decide, each with a contract proved by Verus:

- `wire`: the serial line discipline (every LF goes out as CR LF), with the
  laws that chunking does not matter, that only CRs are added, and that every
  LF follows a CR.
- `uart`: the 16550 on COM1: the bring-up writes, the transmit handshake, and a
  register model in which the bring-up is proved to leave 38400 baud, 8N1.
- `boot`: the banner, how a boot ends (halt, or QEMU's exit device under the
  boot test), and what a panic ends in.
- `boot_test`: the host's verdict on a boot test, with the laws that a clean
  boot passes it and a panic fails it.
- `xtask`: the orchestrator's command parsing, paths, and cargo and QEMU
  command lines.

`app/` holds what runs on a machine: the orchestrator's `main` (processes, file
system, timeout) and the kernel glue (port I/O, the console lock, `hlt`, the
entry point and panic handler).
