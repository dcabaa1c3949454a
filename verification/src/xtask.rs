//! The host-side orchestrator's decisions: which command was asked for, where
//! the build puts things, and the exact cargo and QEMU command lines.
use vstd::prelude::*;
use vstd::string::StringExecFns;

verus! {

/// `path` with every backslash turned into a forward slash.
pub open spec fn forward_slashes(path: Seq<char>) -> Seq<char> {
    Seq::new(path.len(), |i: int| if path[i] == '\\' { '/' } else { path[i] })
}

/// `String::push`: appends one character.
#[verifier::external_body]
fn push_char(s: &mut String, c: char)
    ensures
        final(s)@ == old(s)@.push(c),
{
    s.push(c);
}

/// QEMU on Windows is happier with forward slashes in path arguments.
pub fn slashed(path: &str) -> (out: String)
    ensures
        out@ == forward_slashes(path@),
{
    let mut out = String::new();
    for c in it: path.chars()
        invariant
            out@ == forward_slashes(path@).subrange(0, it.index() as int),
            it.seq() == path@,
    {
        let d = if c == '\\' { '/' } else { c };
        push_char(&mut out, d);
        assert(out@ =~= forward_slashes(path@).subrange(0, it.index() + 1));
    }
    assert(out@ =~= forward_slashes(path@));
    out
}

/// The target the kernel is always built for, never the host.
pub const KERNEL_TARGET: &'static str = "x86_64-unknown-none";

/// What the orchestrator was asked to do.
#[derive(Debug)]
pub enum Command {
    /// Compile the kernel for bare metal.
    Build,
    /// Build a bootable image and boot it in QEMU, in a window if `gui`.
    Run { gui: bool },
    /// Boot headless, check it came up, then exit.
    Test,
    /// A command that does not exist.
    Unknown(String),
    /// No command at all.
    Missing,
}

/// Some argument, the program name included, is `--gui`.
pub open spec fn gui_requested(args: Seq<Seq<char>>) -> bool {
    exists|i: int| 0 <= i < args.len() && args[i] == "--gui"@
}

/// Reads the command from the program's arguments (the program name first).
pub fn parse_command(args: &Vec<String>) -> (cmd: Command)
    ensures
        match cmd {
            Command::Missing => args@.len() < 2,
            Command::Build => args@.len() >= 2 && args@[1]@ == "build"@,
            Command::Run { gui } => args@.len() >= 2 && args@[1]@ == "run"@
                && gui == gui_requested(args.deep_view()),
            Command::Test => args@.len() >= 2 && args@[1]@ == "test"@,
            Command::Unknown(other) => args@.len() >= 2 && other@ == args@[1]@
                && other@ != "build"@ && other@ != "run"@ && other@ != "test"@,
        },
{
    if args.len() < 2 {
        return Command::Missing;
    }
    let name = &args[1];
    if *name == "build".to_owned() {
        Command::Build
    } else if *name == "run".to_owned() {
        let gui_flag = "--gui".to_owned();
        let mut gui = false;
        let mut i: usize = 0;
        while i < args.len()
            invariant
                i <= args@.len(),
                gui_flag@ == "--gui"@,
                gui == exists|k: int| 0 <= k < i && args.deep_view()[k] == "--gui"@,
            decreases args@.len() - i,
        {
            assert(args.deep_view()[i as int] == args@[i as int]@);
            if args[i] == gui_flag {
                gui = true;
            }
            i = i + 1;
        }
        Command::Run { gui }
    } else if *name == "test".to_owned() {
        Command::Test
    } else {
        Command::Unknown(name.clone())
    }
}

/// Appends an owned copy of `part` (a path component or an argument).
fn push_part(path: &mut Vec<String>, part: &str)
    ensures
        final(path).deep_view() == old(path).deep_view().push(part@),
{
    path.push(part.to_owned());
    assert(path.deep_view() =~= old(path).deep_view().push(part@));
}

/// Appends `arg`.
fn push_string(args: &mut Vec<String>, arg: String)
    ensures
        final(args).deep_view() == old(args).deep_view().push(arg@),
{
    args.push(arg);
    assert(args.deep_view() =~= old(args).deep_view().push(arg@));
}

/// The first `len` components of `path`.
fn path_prefix(path: &Vec<String>, len: usize) -> (out: Vec<String>)
    requires
        len <= path@.len(),
    ensures
        out.deep_view() == path.deep_view().subrange(0, len as int),
{
    let mut out: Vec<String> = Vec::new();
    let mut i: usize = 0;
    while i < len
        invariant
            i <= len,
            len <= path@.len(),
            out.deep_view() == path.deep_view().subrange(0, i as int),
        decreases len - i,
    {
        let part = path[i].clone();
        assert(part@ == path.deep_view()[i as int]);
        let ghost before = out.deep_view();
        out.push(part);
        assert(out.deep_view() =~= before.push(part@));
        assert(out.deep_view() =~= path.deep_view().subrange(0, i + 1));
        i = i + 1;
    }
    out
}

/// The workspace root: the parent of the orchestrator's own directory. Paths
/// are sequences of components.
pub fn workspace_root(manifest_dir: &Vec<String>) -> (root: Vec<String>)
    requires
        manifest_dir@.len() >= 1,
    ensures
        root.deep_view() == manifest_dir.deep_view().drop_last(),
{
    let root = path_prefix(manifest_dir, manifest_dir.len() - 1);
    assert(manifest_dir.deep_view().subrange(0, manifest_dir@.len() - 1)
        =~= manifest_dir.deep_view().drop_last());
    root
}

/// Where cargo puts build outputs: `<workspace>/target`.
pub fn target_dir(workspace_root: &Vec<String>) -> (dir: Vec<String>)
    ensures
        dir.deep_view() == workspace_root.deep_view().push("target"@),
{
    let mut dir = path_prefix(workspace_root, workspace_root.len());
    assert(workspace_root.deep_view().subrange(0, workspace_root@.len() as int)
        =~= workspace_root.deep_view());
    push_part(&mut dir, "target");
    dir
}

/// The kernel ELF that `cargo build` leaves for the bare-metal target.
pub fn kernel_elf_path(workspace_root: &Vec<String>) -> (elf: Vec<String>)
    ensures
        elf.deep_view() == workspace_root.deep_view() + seq![
            "target"@,
            KERNEL_TARGET@,
            "debug"@,
            "kernel"@,
        ],
{
    let mut elf = target_dir(workspace_root);
    push_part(&mut elf, KERNEL_TARGET);
    push_part(&mut elf, "debug");
    push_part(&mut elf, "kernel");
    assert(elf.deep_view() =~= workspace_root.deep_view() + seq![
        "target"@,
        KERNEL_TARGET@,
        "debug"@,
        "kernel"@,
    ]);
    elf
}

/// The BIOS disk image built from the kernel.
pub fn disk_image_path(workspace_root: &Vec<String>) -> (image: Vec<String>)
    ensures
        image.deep_view() == workspace_root.deep_view() + seq![
            "target"@,
            "peekos"@,
            "peekos-bios.img"@,
        ],
{
    let mut image = target_dir(workspace_root);
    push_part(&mut image, "peekos");
    push_part(&mut image, "peekos-bios.img");
    assert(image.deep_view() =~= workspace_root.deep_view() + seq![
        "target"@,
        "peekos"@,
        "peekos-bios.img"@,
    ]);
    image
}

/// Where the boot test has QEMU write the kernel's serial output.
pub fn serial_log_path(workspace_root: &Vec<String>) -> (log: Vec<String>)
    ensures
        log.deep_view() == workspace_root.deep_view() + seq![
            "target"@,
            "peekos"@,
            "test-serial.txt"@,
        ],
{
    let mut log = target_dir(workspace_root);
    push_part(&mut log, "peekos");
    push_part(&mut log, "test-serial.txt");
    assert(log.deep_view() =~= workspace_root.deep_view() + seq![
        "target"@,
        "peekos"@,
        "test-serial.txt"@,
    ]);
    log
}

/// The arguments of `cargo build` for the kernel, with `extra` at the end
/// (e.g. `--features ...`).
pub fn kernel_build_args(extra: &Vec<String>) -> (args: Vec<String>)
    ensures
        args.deep_view() == seq![
            "build"@,
            "--package"@,
            "kernel"@,
            "--target"@,
            KERNEL_TARGET@,
        ] + extra.deep_view(),
{
    let mut args: Vec<String> = Vec::new();
    push_part(&mut args, "build");
    push_part(&mut args, "--package");
    push_part(&mut args, "kernel");
    push_part(&mut args, "--target");
    push_part(&mut args, KERNEL_TARGET);
    let ghost head = args.deep_view();
    let mut i: usize = 0;
    while i < extra.len()
        invariant
            i <= extra@.len(),
            args.deep_view() == head + extra.deep_view().subrange(0, i as int),
        decreases extra@.len() - i,
    {
        let arg = extra[i].clone();
        assert(arg@ == extra.deep_view()[i as int]);
        let ghost before = args.deep_view();
        args.push(arg);
        assert(args.deep_view() =~= before.push(arg@));
        assert(args.deep_view() =~= head + extra.deep_view().subrange(0, i + 1));
        i = i + 1;
    }
    assert(extra.deep_view().subrange(0, extra@.len() as int) =~= extra.deep_view());
    assert(head =~= seq!["build"@, "--package"@, "kernel"@, "--target"@, KERNEL_TARGET@]);
    args
}

/// The extra cargo arguments of the boot-test build: the kernel then reports
/// its boot and asks QEMU to exit instead of halting.
pub fn boot_test_features() -> (extra: Vec<String>)
    ensures
        extra.deep_view() == seq!["--features"@, "boot-test"@],
{
    let mut extra: Vec<String> = Vec::new();
    push_part(&mut extra, "--features");
    push_part(&mut extra, "boot-test");
    assert(extra.deep_view() =~= seq!["--features"@, "boot-test"@]);
    extra
}

/// QEMU's `-drive` value for a raw disk image.
pub open spec fn drive_arg(image: Seq<char>) -> Seq<char> {
    "format=raw,file="@ + forward_slashes(image)
}

/// The QEMU arguments of `run`: boot the image with the serial port on this
/// terminal; without `gui`, no window.
pub open spec fn run_args(image: Seq<char>, gui: bool) -> Seq<Seq<char>> {
    seq!["-drive"@, drive_arg(image), "-serial"@, "stdio"@, "-no-reboot"@] + if gui {
        Seq::empty()
    } else {
        seq!["-display"@, "none"@]
    }
}

/// The QEMU arguments of the boot test: headless, serial output to a file,
/// and the exit device at the port the kernel writes its verdict to.
pub open spec fn test_args(image: Seq<char>, serial_log: Seq<char>) -> Seq<Seq<char>> {
    seq![
        "-drive"@,
        drive_arg(image),
        "-chardev"@,
        "file,id=serial0,path="@ + forward_slashes(serial_log),
        "-serial"@,
        "chardev:serial0"@,
        "-display"@,
        "none"@,
        "-device"@,
        "isa-debug-exit,iobase=0xf4,iosize=0x04"@,
        "-no-reboot"@,
    ]
}

/// The QEMU arguments to boot `image` (a path as text).
pub fn qemu_run_args(image: &str, gui: bool) -> (args: Vec<String>)
    ensures
        args.deep_view() == run_args(image@, gui),
{
    let mut args: Vec<String> = Vec::new();
    push_part(&mut args, "-drive");
    push_string(&mut args, "format=raw,file=".to_owned().concat(slashed(image).as_str()));
    push_part(&mut args, "-serial");
    push_part(&mut args, "stdio");
    push_part(&mut args, "-no-reboot");
    if !gui {
        push_part(&mut args, "-display");
        push_part(&mut args, "none");
    }
    assert(args.deep_view() =~= run_args(image@, gui));
    args
}

/// The QEMU arguments of the boot test for `image`, logging serial output to
/// `serial_log` (both paths as text).
pub fn qemu_test_args(image: &str, serial_log: &str) -> (args: Vec<String>)
    ensures
        args.deep_view() == test_args(image@, serial_log@),
{
    let mut args: Vec<String> = Vec::new();
    push_part(&mut args, "-drive");
    push_string(&mut args, "format=raw,file=".to_owned().concat(slashed(image).as_str()));
    push_part(&mut args, "-chardev");
    push_string(&mut args, "file,id=serial0,path=".to_owned().concat(slashed(serial_log).as_str()));
    push_part(&mut args, "-serial");
    push_part(&mut args, "chardev:serial0");
    push_part(&mut args, "-display");
    push_part(&mut args, "none");
    push_part(&mut args, "-device");
    push_part(&mut args, "isa-debug-exit,iobase=0xf4,iosize=0x04");
    push_part(&mut args, "-no-reboot");
    assert(args.deep_view() =~= test_args(image@, serial_log@));
    args
}

/// `value` is `prefix` followed by `path` with every backslash turned into a
/// forward slash: no backslash of `path` reaches it.
pub open spec fn is_prefixed_slashed(value: Seq<char>, prefix: Seq<char>, path: Seq<char>) -> bool {
    &&& value.len() == prefix.len() + path.len()
    &&& value.subrange(0, prefix.len() as int) == prefix
    &&& forall|i: int|
        0 <= i < path.len() ==> value[prefix.len() + i] == if #[trigger] path[i] == '\\' {
            '/'
        } else {
            path[i]
        }
    &&& forall|j: int| prefix.len() <= j < value.len() ==> #[trigger] value[j] != '\\'
}

/// Both command lines hand QEMU the same disk: the second argument is
/// `format=raw,file=` and the image path with its backslashes turned into
/// slashes, with or without a window, in `run` and in the boot test alike; and
/// the boot test's serial log path is passed the same way.
pub proof fn lemma_drive_argument(image: Seq<char>, serial_log: Seq<char>, gui: bool)
    ensures
        run_args(image, gui).len() >= 2,
        test_args(image, serial_log).len() == 11,
        run_args(image, gui)[0] == "-drive"@,
        test_args(image, serial_log)[0] == "-drive"@,
        run_args(image, gui)[1] == test_args(image, serial_log)[1],
        is_prefixed_slashed(test_args(image, serial_log)[1], "format=raw,file="@, image),
        test_args(image, serial_log)[2] == "-chardev"@,
        is_prefixed_slashed(
            test_args(image, serial_log)[3],
            "file,id=serial0,path="@,
            serial_log,
        ),
{
    let pre = "format=raw,file="@;
    let d = test_args(image, serial_log)[1];
    assert(d =~= pre + forward_slashes(image));
    assert(d.subrange(0, pre.len() as int) =~= pre);
    assert forall|j: int| pre.len() <= j < d.len() implies #[trigger] d[j] != '\\' by {
        assert(d[j] == forward_slashes(image)[j - pre.len()]);
    }
    let pre2 = "file,id=serial0,path="@;
    let c = test_args(image, serial_log)[3];
    assert(c =~= pre2 + forward_slashes(serial_log));
    assert(c.subrange(0, pre2.len() as int) =~= pre2);
    assert forall|j: int| pre2.len() <= j < c.len() implies #[trigger] c[j] != '\\' by {
        assert(c[j] == forward_slashes(serial_log)[j - pre2.len()]);
    }
}

/// `--gui` changes nothing but the window: the headless command line is the
/// windowed one followed by `-display none`.
pub proof fn lemma_gui_only_drops_display(image: Seq<char>)
    ensures
        run_args(image, false) == run_args(image, true) + seq!["-display"@, "none"@],
        run_args(image, true).len() == 5,
{
    assert(run_args(image, false) =~= run_args(image, true) + seq!["-display"@, "none"@]);
}

/// Turning backslashes forward leaves no backslash, keeps every other
/// character where it was, and changes nothing when done twice.
pub proof fn lemma_forward_slashes(path: Seq<char>)
    ensures
        forward_slashes(path).len() == path.len(),
        forall|i: int| 0 <= i < path.len() ==> #[trigger] forward_slashes(path)[i] != '\\',
        forall|i: int|
            0 <= i < path.len() && #[trigger] path[i] != '\\' ==> forward_slashes(path)[i]
                == path[i],
        forall|i: int|
            0 <= i < path.len() && #[trigger] path[i] == '\\' ==> forward_slashes(path)[i]
                == '/',
        forward_slashes(forward_slashes(path)) == forward_slashes(path),
{
    assert(forward_slashes(forward_slashes(path)) =~= forward_slashes(path));
}

/// The boot test runs headless, never reboots, and sends the serial port to
/// the character device its own `-chardev` argument defines.
pub proof fn lemma_test_args_headless(image: Seq<char>, serial_log: Seq<char>)
    ensures
        ({
            let a = test_args(image, serial_log);
            &&& a[6] == "-display"@ && a[7] == "none"@
            &&& a[a.len() - 1] == "-no-reboot"@
            &&& a[4] == "-serial"@ && a[5] == "chardev:"@ + "serial0"@
            &&& a[3].subrange(0, 16) == "file,id=serial0,"@
            &&& a[8] == "-device"@
        }),
{
    reveal_strlit("file,id=serial0,path=");
    reveal_strlit("file,id=serial0,");
    reveal_strlit("chardev:serial0");
    reveal_strlit("chardev:");
    reveal_strlit("serial0");
    let a = test_args(image, serial_log);
    assert(a[3].subrange(0, 16) =~= "file,id=serial0,"@);
    assert("chardev:serial0"@ =~= "chardev:"@ + "serial0"@);
}

} // verus!
