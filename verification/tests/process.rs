use ferro_vault::limits::CgroupLimits;
use ferro_vault::process::Process;
use ferro_vault::seccomp::{build_filter, default_allowlist};
use ferro_vault::system::{Failure, Operation, Reply, Stream};

const IDENTITY: [u8; 32] = [0x2a; 32];

/// A system that answers as it is told, and remembers what it was asked.
struct Script {
    /// Whether the manager's fork makes this process the child.
    first_child: bool,
    /// Whether the second fork makes this process the child.
    second_child: bool,
    /// The operation that fails, by its number.
    failing: Option<usize>,
    /// What the environment holds for the identity's descriptor.
    variable: Option<String>,
    /// What is drawn as the identity.
    identity: [u8; 32],
    /// How many bytes of the identity are written.
    written: usize,
    /// How many bytes of the identity are read.
    read: usize,
    operations: Vec<Operation>,
    forks: usize,
}

struct Outcome {
    operations: Vec<Operation>,
    out: Vec<String>,
    err: Vec<String>,
    panic: Vec<String>,
    end: Process,
}

impl Script {
    fn new(first_child: bool, second_child: bool) -> Script {
        Script {
            first_child,
            second_child,
            failing: None,
            variable: None,
            identity: IDENTITY,
            written: 32,
            read: 32,
            operations: Vec::new(),
            forks: 0,
        }
    }

    fn failing(first_child: bool, second_child: bool, at: usize) -> Script {
        Script { failing: Some(at), ..Script::new(first_child, second_child) }
    }

    fn answer(&mut self, operation: &Operation) -> Reply {
        if self.failing == Some(self.operations.len()) {
            return Reply::Failed(Failure {
                display: "EPERM: Operation not permitted".to_string(),
                debug: "EPERM".to_string(),
            });
        }
        match operation {
            Operation::ReadOpened => Reply::Identity(self.identity),
            Operation::WriteIdentity { .. } => Reply::Written { count: self.written },
            Operation::ReadIdentity { .. } => {
                let mut buffer = [0u8; 32];
                buffer[..self.read].copy_from_slice(&self.identity[..self.read]);
                Reply::Received { count: self.read, buffer }
            }
            Operation::CreateMemfd { .. } => Reply::Descriptor(3),
            Operation::SetVar { value, .. } => {
                self.variable.get_or_insert(value.clone());
                Reply::Done
            }
            Operation::GetVar { .. } => Reply::Value(self.variable.clone().unwrap()),
            Operation::Fork => {
                self.forks += 1;
                let child = if self.forks == 1 { self.first_child } else { self.second_child };
                if child { Reply::Child } else { Reply::Parent { child: 468 } }
            }
            Operation::Wait { child } => Reply::Status(format!("Exited(Pid({}), 0)", child)),
            Operation::GetPid => Reply::Pid(468),
            Operation::Exec { .. } => Reply::Failed(Failure {
                display: "ENOENT: No such file or directory".to_string(),
                debug: "ENOENT".to_string(),
            }),
            _ => Reply::Done,
        }
    }

    fn run(mut self) -> Outcome {
        let limits = CgroupLimits::default();
        let mut transition = Process::start();
        let (mut out, mut err, mut panic) = (Vec::new(), Vec::new(), Vec::new());
        loop {
            for line in transition.lines {
                match line.stream {
                    Stream::Stdout => out.push(line.text),
                    Stream::Stderr => err.push(line.text),
                    Stream::Panic => panic.push(line.text),
                }
            }
            let process = transition.process;
            let answered = self.operations.len();
            let owns = answered == 12 || answered == 13 && self.forks == 1 && !self.first_child;
            let running = !matches!(process, Process::Exited(_) | Process::Panicked);
            assert_eq!(process.owns_cgroup(), owns && running);
            let Some(operation) = process.request(&limits) else {
                return Outcome { operations: self.operations, out, err, panic, end: process };
            };
            let reply = self.answer(&operation);
            assert!(operation.answered_by(&reply));
            self.operations.push(operation);
            transition = process.advance(&limits, &reply);
        }
    }
}

fn removals(outcome: &Outcome) -> usize {
    let removal = |operation: &&Operation| {
        matches!(operation, Operation::RemoveDir { path } if path == "/sys/fs/cgroup/ferrovault")
    };
    outcome.operations.iter().filter(removal).count()
}

const OPENING: [&str; 6] = [
    "=== FerroVault Manager Starting ===",
    "Manager: Identity provisioned — 32 bytes sealed in memfd (fd=3).",
    "Manager:   memory.max = 268435456",
    "Manager:   cpu.max = 50000 100000",
    "Manager:   pids.max = 32",
    "Manager: Cgroup ready at /sys/fs/cgroup/ferrovault.",
];

#[test]
fn manager_prints_the_documented_transcript() {
    let outcome = Script::new(false, false).run();
    assert_eq!(outcome.out[..6], OPENING);
    assert_eq!(
        outcome.out[6..],
        [
            "Manager: Spawned container process PID 468",
            "Manager: Container exited with status: Exited(Pid(468), 0)",
            "Manager: Cgroup removed.",
        ]
    );
    assert!(outcome.err.is_empty());
    assert!(matches!(outcome.end, Process::Exited(0)));
    assert_eq!(removals(&outcome), 1);
}

#[test]
fn container_prints_the_documented_transcript() {
    let outcome = Script::new(true, true).run();
    let identity = "2a".repeat(32);
    assert_eq!(outcome.out[..6], OPENING);
    assert_eq!(
        outcome.out[6..],
        [
            "Container: Assigned to cgroup (PID 468).",
            "Container: Namespaces created. Forking into new PID namespace...",
            "Container: Entered new PID namespace. I am PID 1.",
            "Container: pivoted into isolated rootfs at /workspace/rootfs (now read-only).",
            "Container: /proc mounted. Only this namespace's processes are visible.",
            &format!("Container: Identity received — 0x{}", identity),
            "Container: seccomp filter installed — 56 syscalls allowed, everything else kills the process.",
        ]
    );
    assert_eq!(outcome.err, ["Container: execvp failed: ENOENT: No such file or directory"]);
    assert!(matches!(outcome.end, Process::Exited(1)));
    assert_eq!(removals(&outcome), 0);
}

#[test]
fn container_performs_its_operations_in_order() {
    let operations = Script::new(true, true).run().operations;
    assert_eq!(operations.len(), 31);
    let shown: Vec<String> = operations.iter().map(|o| format!("{:?}", o)).collect();
    assert_eq!(shown[0], "OpenFile { path: \"/dev/urandom\" }");
    assert_eq!(shown[1], "ReadOpened");
    assert_eq!(
        shown[2],
        "CreateMemfd { name: \"ferrovault-identity\", allow_sealing: true, close_on_exec: false }"
    );
    assert_eq!(shown[3], format!("WriteIdentity {{ fd: 3, identity: {:?} }}", IDENTITY));
    assert_eq!(shown[4], "SeekToStart { fd: 3 }");
    assert_eq!(
        shown[5],
        "AddSeals { fd: 3, seals: Seals { seal: true, write: true, shrink: true, grow: true } }"
    );
    assert_eq!(shown[6], "SetVar { name: \"FERROVAULT_IDENTITY_FD\", value: \"3\" }");
    assert_eq!(
        shown[7],
        "WriteFile { path: \"/sys/fs/cgroup/cgroup.subtree_control\", contents: \"+memory +cpu +pids\" }"
    );
    assert_eq!(shown[8], "CreateDirAll { path: \"/sys/fs/cgroup/ferrovault\" }");
    assert_eq!(
        shown[9],
        "WriteFile { path: \"/sys/fs/cgroup/ferrovault/memory.max\", contents: \"268435456\" }"
    );
    assert_eq!(
        shown[10],
        "WriteFile { path: \"/sys/fs/cgroup/ferrovault/cpu.max\", contents: \"50000 100000\" }"
    );
    assert_eq!(
        shown[11],
        "WriteFile { path: \"/sys/fs/cgroup/ferrovault/pids.max\", contents: \"32\" }"
    );
    assert_eq!(shown[12], "Fork");
    assert_eq!(shown[13], "GetPid");
    assert_eq!(
        shown[14],
        "WriteFile { path: \"/sys/fs/cgroup/ferrovault/cgroup.procs\", contents: \"468\" }"
    );
    assert_eq!(
        shown[15],
        "Unshare { namespaces: Namespaces { pid: true, mount: true, ipc: true } }"
    );
    assert_eq!(shown[17], "Fork");
    assert_eq!(shown[19], "CreateDirAll { path: \"/workspace/rootfs/.oldroot\" }");
    assert_eq!(shown[20], "ChangeDir { path: \"/workspace/rootfs\" }");
    assert_eq!(shown[21], "PivotRoot { new_root: \".\", put_old: \".oldroot\" }");
    assert_eq!(shown[22], "ChangeDir { path: \"/\" }");
    assert_eq!(shown[23], "Unmount { target: \"/.oldroot\", detach: true }");
    assert_eq!(shown[24], "RemoveDir { path: \"/.oldroot\" }");
    assert_eq!(shown[27], "GetVar { name: \"FERROVAULT_IDENTITY_FD\" }");
    assert_eq!(shown[28], "ReadIdentity { fd: 3 }");
    assert!(shown[29].starts_with("InstallFilter"));
    assert_eq!(shown[30], "Exec { path: \"/bin/sh\", args: [\"/bin/sh\"] }");
}

fn mount_of(operation: &Operation) -> (Option<&str>, &str, Option<&str>, [bool; 8]) {
    match operation {
        Operation::Mount { source, target, fstype, flags } => (
            source.as_deref(),
            target.as_str(),
            fstype.as_deref(),
            [
                flags.bind,
                flags.recursive,
                flags.private,
                flags.remount,
                flags.read_only,
                flags.no_suid,
                flags.no_dev,
                flags.no_exec,
            ],
        ),
        other => panic!("{:?} is no mount", other),
    }
}

#[test]
fn container_mounts_with_the_documented_flags() {
    let operations = Script::new(true, true).run().operations;
    assert_eq!(
        mount_of(&operations[16]),
        (None, "/", None, [false, true, true, false, false, false, false, false])
    );
    assert_eq!(
        mount_of(&operations[18]),
        (
            Some("/workspace/rootfs"),
            "/workspace/rootfs",
            None,
            [true, true, false, false, false, false, false, false]
        )
    );
    assert_eq!(
        mount_of(&operations[25]),
        (None, "/", None, [true, true, false, true, true, false, false, false])
    );
    assert_eq!(
        mount_of(&operations[26]),
        (
            Some("proc"),
            "/proc",
            Some("proc"),
            [false, false, false, false, false, true, true, true]
        )
    );
}

#[test]
fn namespace_init_waits_for_its_child_and_exits() {
    let outcome = Script::new(true, false).run();
    assert_eq!(outcome.operations.len(), 19);
    assert!(matches!(outcome.operations[18], Operation::Wait { child: 468 }));
    assert_eq!(outcome.out.len(), 8);
    assert!(outcome.err.is_empty());
    assert!(matches!(outcome.end, Process::Exited(0)));
    assert_eq!(removals(&outcome), 0);
}

#[test]
fn failed_provisioning_panics() {
    let messages = [
        "open /dev/urandom: EPERM",
        "read urandom: EPERM",
        "memfd_create failed: EPERM",
        "write identity to memfd: EPERM",
        "lseek memfd: EPERM",
        "seal memfd failed: EPERM",
    ];
    for (at, message) in messages.iter().enumerate() {
        let outcome = Script::failing(false, false, at).run();
        assert_eq!(outcome.panic, [*message]);
        assert_eq!(outcome.operations.len(), at + 1);
        assert!(matches!(outcome.end, Process::Panicked));
        assert_eq!(removals(&outcome), 0);
    }
}

#[test]
fn controllers_are_enabled_as_far_as_possible() {
    let outcome = Script::failing(false, false, 7).run();
    assert_eq!(
        outcome.err,
        ["Manager: cgroup.subtree_control (best-effort): EPERM: Operation not permitted"]
    );
    assert_eq!(outcome.out.len(), 9);
    assert!(matches!(outcome.end, Process::Exited(0)));
}

#[test]
fn a_missing_cgroup_directory_panics() {
    let outcome = Script::failing(false, false, 8).run();
    assert_eq!(outcome.panic, ["create cgroup directory: EPERM"]);
    assert!(matches!(outcome.end, Process::Panicked));
}

#[test]
fn limits_that_cannot_be_written_are_skipped() {
    for (at, file) in [(9, "memory.max"), (10, "cpu.max"), (11, "pids.max")] {
        let outcome = Script::failing(false, false, at).run();
        assert_eq!(
            outcome.err,
            [format!("Manager:   {} (skipped): EPERM: Operation not permitted", file)]
        );
        assert_eq!(outcome.out.len(), 8);
        assert!(matches!(outcome.end, Process::Exited(0)));
    }
}

#[test]
fn a_failed_fork_still_removes_the_cgroup() {
    let outcome = Script::failing(false, false, 12).run();
    assert_eq!(outcome.err, ["Manager: fork failed: EPERM: Operation not permitted"]);
    assert_eq!(outcome.out.last().unwrap(), "Manager: Cgroup removed.");
    assert!(matches!(outcome.end, Process::Exited(1)));
    assert_eq!(removals(&outcome), 1);
}

#[test]
fn a_failed_wait_still_removes_the_cgroup() {
    let outcome = Script::failing(false, false, 13).run();
    assert_eq!(outcome.err, ["Manager: waitpid error: EPERM: Operation not permitted"]);
    assert!(matches!(outcome.end, Process::Exited(0)));
    assert_eq!(removals(&outcome), 1);
}

#[test]
fn a_cgroup_that_stays_is_reported() {
    let outcome = Script::failing(false, false, 14).run();
    assert_eq!(outcome.err, ["Manager: cgroup cleanup: EPERM: Operation not permitted"]);
    assert!(matches!(outcome.end, Process::Exited(0)));
}

#[test]
fn failures_in_the_container_are_reported_and_final() {
    let reasons = [
        (14, true, "Container: cgroup self-assign failed: "),
        (15, true, "Container: unshare failed: "),
        (16, true, "Container: failed to make mounts private: "),
        (17, true, "Namespace-init: second fork failed: "),
        (18, false, "Namespace-init: waitpid error: "),
        (18, true, "Container: failed to bind-mount rootfs: "),
        (19, true, "Container: failed to create pivot_root put_old dir: "),
        (20, true, "Container: chdir into rootfs failed: "),
        (21, true, "Container: pivot_root failed: "),
        (22, true, "Container: chdir to new / failed: "),
        (23, true, "Container: failed to unmount old root: "),
        (24, true, "Container: failed to remove old root mountpoint: "),
        (25, true, "Container: failed to remount rootfs read-only: "),
        (26, true, "Container: failed to mount procfs: "),
        (29, true, "Container: failed to install seccomp filter: "),
        (30, true, "Container: execvp failed: "),
    ];
    for (at, second_child, reason) in reasons {
        let outcome = Script::failing(true, second_child, at).run();
        assert_eq!(outcome.err, [format!("{}EPERM: Operation not permitted", reason)]);
        assert_eq!(outcome.operations.len(), at + 1);
        assert!(matches!(outcome.end, Process::Exited(1)));
        assert_eq!(removals(&outcome), 0);
    }
}

#[test]
fn a_container_without_identity_panics() {
    for (at, message) in [
        (27, "FERROVAULT_IDENTITY_FD not set: EPERM"),
        (28, "read identity from memfd: EPERM"),
    ] {
        let outcome = Script::failing(true, true, at).run();
        assert_eq!(outcome.panic, [message]);
        assert!(matches!(outcome.end, Process::Panicked));
        assert_eq!(removals(&outcome), 0);
    }
}

#[test]
fn a_container_with_a_bad_descriptor_number_panics() {
    for (value, message) in [
        ("", "invalid fd number: ParseIntError { kind: Empty }"),
        ("three", "invalid fd number: ParseIntError { kind: InvalidDigit }"),
        ("4294967295", "invalid fd number: ParseIntError { kind: PosOverflow }"),
        ("-4294967295", "invalid fd number: ParseIntError { kind: NegOverflow }"),
    ] {
        let mut script = Script::new(true, true);
        script.variable = Some(value.to_string());
        let outcome = script.run();
        assert_eq!(outcome.panic, [message]);
        assert!(matches!(outcome.end, Process::Panicked));
    }
}

#[test]
fn an_identity_written_in_part_is_not_provisioned() {
    for (written, message) in [
        (0, "write identity to memfd: 0 of 32 bytes"),
        (31, "write identity to memfd: 31 of 32 bytes"),
    ] {
        let outcome = Script { written, ..Script::new(true, true) }.run();
        assert_eq!(outcome.panic, [message]);
        assert_eq!(outcome.out, ["=== FerroVault Manager Starting ==="]);
        assert_eq!(outcome.operations.len(), 4);
        assert!(matches!(outcome.end, Process::Panicked));
    }
}

#[test]
fn an_identity_read_in_part_is_not_shown() {
    for (read, message) in [
        (0, "read identity from memfd: 0 of 32 bytes"),
        (16, "read identity from memfd: 16 of 32 bytes"),
    ] {
        let outcome = Script { read, ..Script::new(true, true) }.run();
        assert_eq!(outcome.panic, [message]);
        assert!(!outcome.out.iter().any(|line| line.contains("Identity received")));
        assert_eq!(outcome.operations.len(), 29);
        assert!(matches!(outcome.end, Process::Panicked));
    }
}

#[test]
fn the_filter_of_the_allowed_calls_comes_right_before_the_entrypoint() {
    let operations = Script::new(true, true).run().operations;
    match &operations[29] {
        Operation::InstallFilter { program } => {
            assert_eq!(program, &build_filter(&default_allowlist()));
        }
        other => panic!("{:?} installs no filter", other),
    }
    assert!(matches!(operations[30], Operation::Exec { .. }));
}

#[test]
fn only_the_write_of_the_identity_depends_on_it() {
    let shown = |identity: [u8; 32]| -> Vec<String> {
        let outcome = Script { identity, ..Script::new(true, true) }.run();
        outcome.operations.iter().map(|o| format!("{:?}", o)).collect()
    };
    let (a, b) = (shown([0x11; 32]), shown([0x22; 32]));
    for i in 0..31 {
        assert_eq!(a[i] == b[i], i != 3);
    }
}
