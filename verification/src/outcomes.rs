//! What the program asks for, prints and comes to after each answer of the system, in every run.

use crate::cgroup::cgroup_ready;
use crate::course::{alive, lemma_course, place, position, possible, run};
use crate::hex::{hex, law_hex_injective, law_hex_reads_back};
use crate::limits::CgroupLimits;
use crate::payload::law_confined_line;
use crate::process::Process;
use crate::rootfs::pivoted;
use crate::seccomp::{filter_program, law_allowed_calls};
use crate::step::incomplete;
use crate::system::{
    LineView, MountFlags, Namespaces, OperationView, ReplyView, Seals, Stream, CGROUP_PATH,
    ROOTFS_PATH,
};
use crate::text::{decimal, law_faults_shown, read_i32, signed_decimal, IntFault};
use vstd::prelude::*;

verus! {

/// A run begins with one line and no operation behind it.
pub proof fn law_run_begins(limits: CgroupLimits)
    ensures
        possible(limits, Seq::<ReplyView>::empty()),
        run(limits, Seq::<ReplyView>::empty()).operations == Seq::<OperationView>::empty(),
        run(limits, Seq::<ReplyView>::empty()).lines == seq![
            LineView { stream: Stream::Stdout, text: "=== FerroVault Manager Starting ==="@ },
        ],
{
}

/// A run goes on with any reply that answers what the process asks: the operation is added to
/// those behind it, and what the process prints to its lines.
pub proof fn law_run_goes_on(
    limits: CgroupLimits,
    replies: Seq<ReplyView>,
    operation: OperationView,
    reply: ReplyView,
)
    requires
        possible(limits, replies),
        run(limits, replies).process.asks(limits) == Some(operation),
        operation.answered_by(reply),
    ensures
        ({
            let before = run(limits, replies);
            let after = run(limits, replies.push(reply));
            &&& possible(limits, replies.push(reply))
            &&& after.operations == before.operations.push(operation)
            &&& after.process == before.process.after(limits, reply).process
            &&& after.lines == before.lines + before.process.after(limits, reply).lines
        }),
{
    assert(replies.push(reply).drop_last() =~= replies);
}

proof fn lemma_answer(limits: CgroupLimits, replies: Seq<ReplyView>, reply: ReplyView)
    requires
        possible(limits, replies),
        run(limits, replies).process.awaits(limits, reply),
    ensures
        ({
            let here = place(replies, replies.len() as int);
            let after = run(limits, replies.push(reply));
            &&& run(limits, replies).process == here
            &&& position(here) == replies.len()
            &&& after.process == here.after(limits, reply).process
            &&& after.lines == run(limits, replies).lines + here.after(limits, reply).lines
        }),
{
    lemma_course(limits, replies);
    assert(alive(run(limits, replies).process));
    law_run_goes_on(limits, replies, run(limits, replies).process.asks(limits)->0, reply);
}

proof fn lemma_paths()
    ensures
        CGROUP_PATH@ + "/"@ + "memory.max"@ == "/sys/fs/cgroup/ferrovault/memory.max"@,
        CGROUP_PATH@ + "/"@ + "cpu.max"@ == "/sys/fs/cgroup/ferrovault/cpu.max"@,
        CGROUP_PATH@ + "/"@ + "pids.max"@ == "/sys/fs/cgroup/ferrovault/pids.max"@,
        CGROUP_PATH@ + "/cgroup.procs"@ == "/sys/fs/cgroup/ferrovault/cgroup.procs"@,
        ROOTFS_PATH@ + "/.oldroot"@ == "/workspace/rootfs/.oldroot"@,
{
    reveal_strlit("/sys/fs/cgroup/ferrovault");
    reveal_strlit("/workspace/rootfs");
    reveal_strlit("/");
    reveal_strlit("memory.max");
    reveal_strlit("/sys/fs/cgroup/ferrovault/memory.max");
    reveal_strlit("cpu.max");
    reveal_strlit("/sys/fs/cgroup/ferrovault/cpu.max");
    reveal_strlit("pids.max");
    reveal_strlit("/sys/fs/cgroup/ferrovault/pids.max");
    reveal_strlit("/cgroup.procs");
    reveal_strlit("/sys/fs/cgroup/ferrovault/cgroup.procs");
    reveal_strlit("/.oldroot");
    reveal_strlit("/workspace/rootfs/.oldroot");
    assert(CGROUP_PATH@ + "/"@ + "memory.max"@ =~= "/sys/fs/cgroup/ferrovault/memory.max"@);
    assert(CGROUP_PATH@ + "/"@ + "cpu.max"@ =~= "/sys/fs/cgroup/ferrovault/cpu.max"@);
    assert(CGROUP_PATH@ + "/"@ + "pids.max"@ =~= "/sys/fs/cgroup/ferrovault/pids.max"@);
    assert(CGROUP_PATH@ + "/cgroup.procs"@ =~= "/sys/fs/cgroup/ferrovault/cgroup.procs"@);
    assert(ROOTFS_PATH@ + "/.oldroot"@ =~= "/workspace/rootfs/.oldroot"@);
}

/// The reports that name a path.
pub proof fn lemma_reports()
    ensures
        cgroup_ready() == "Manager: Cgroup ready at /sys/fs/cgroup/ferrovault."@,
        pivoted()
            == "Container: pivoted into isolated rootfs at /workspace/rootfs (now read-only)."@,
{
    reveal_strlit("/sys/fs/cgroup/ferrovault");
    reveal_strlit("/workspace/rootfs");
    reveal_strlit("Manager: Cgroup ready at ");
    reveal_strlit(".");
    reveal_strlit("Container: pivoted into isolated rootfs at ");
    reveal_strlit(" (now read-only).");
    reveal_strlit("Manager: Cgroup ready at /sys/fs/cgroup/ferrovault.");
    reveal_strlit("Container: pivoted into isolated rootfs at /workspace/rootfs (now read-only).");
    assert(cgroup_ready() =~= "Manager: Cgroup ready at /sys/fs/cgroup/ferrovault."@);
    assert(pivoted()
        =~= "Container: pivoted into isolated rootfs at /workspace/rootfs (now read-only)."@);
}

/// How the reports on the limits begin.
pub proof fn lemma_limit_reports()
    ensures
        "Manager:   "@ + "memory.max"@ + " = "@ == "Manager:   memory.max = "@,
        "Manager:   "@ + "memory.max"@ + " (skipped): "@ == "Manager:   memory.max (skipped): "@,
        "Manager:   "@ + "cpu.max"@ + " = "@ == "Manager:   cpu.max = "@,
        "Manager:   "@ + "cpu.max"@ + " (skipped): "@ == "Manager:   cpu.max (skipped): "@,
        "Manager:   "@ + "pids.max"@ + " = "@ == "Manager:   pids.max = "@,
        "Manager:   "@ + "pids.max"@ + " (skipped): "@ == "Manager:   pids.max (skipped): "@,
{
    reveal_strlit("Manager:   ");
    reveal_strlit("memory.max");
    reveal_strlit(" = ");
    reveal_strlit("Manager:   memory.max = ");
    reveal_strlit(" (skipped): ");
    reveal_strlit("Manager:   memory.max (skipped): ");
    reveal_strlit("cpu.max");
    reveal_strlit("Manager:   cpu.max = ");
    reveal_strlit("Manager:   cpu.max (skipped): ");
    reveal_strlit("pids.max");
    reveal_strlit("Manager:   pids.max = ");
    reveal_strlit("Manager:   pids.max (skipped): ");
    assert("Manager:   "@ + "memory.max"@ + " = "@ =~= "Manager:   memory.max = "@);
    assert("Manager:   "@ + "memory.max"@ + " (skipped): "@
        =~= "Manager:   memory.max (skipped): "@);
    assert("Manager:   "@ + "cpu.max"@ + " = "@ =~= "Manager:   cpu.max = "@);
    assert("Manager:   "@ + "cpu.max"@ + " (skipped): "@ =~= "Manager:   cpu.max (skipped): "@);
    assert("Manager:   "@ + "pids.max"@ + " = "@ =~= "Manager:   pids.max = "@);
    assert("Manager:   "@ + "pids.max"@ + " (skipped): "@ =~= "Manager:   pids.max (skipped): "@);
}

proof fn lemma_incomplete(count: usize)
    ensures
        incomplete(count) == decimal(count as nat) + " of 32 bytes"@,
{
    reveal_with_fuel(decimal, 3);
    reveal_strlit(" of ");
    reveal_strlit(" bytes");
    reveal_strlit(" of 32 bytes");
    assert(" of "@ + decimal(32) + " bytes"@ =~= " of 32 bytes"@);
    assert(incomplete(count) =~= decimal(count as nat) + " of 32 bytes"@);
}

/// What the manager asks for, in order. It draws the identity, writes what was drawn to the file
/// that was created, rewinds and seals that file, and leaves its number in the environment; it
/// sets the cgroup up with the limits; it forks, waits for the child that it forked and no other,
/// and removes the cgroup, at once where the fork failed.
#[verifier::rlimit(80)]
pub proof fn law_manager_asks(limits: CgroupLimits, replies: Seq<ReplyView>)
    requires
        possible(limits, replies),
        !(run(limits, replies).process is Exited),
        !(run(limits, replies).process is Panicked),
    ensures
        ({
            let next = run(limits, replies).process.asks(limits);
            let n = replies.len();
            &&& n == 0 ==> next == Some(OperationView::OpenFile { path: "/dev/urandom"@ })
            &&& n == 1 ==> next == Some(OperationView::ReadOpened)
            &&& n == 2 ==> next == Some(
                OperationView::CreateMemfd {
                    name: "ferrovault-identity"@,
                    allow_sealing: true,
                    close_on_exec: false,
                },
            )
            &&& n == 3 ==> next == Some(
                OperationView::WriteIdentity {
                    fd: replies[2]->Descriptor_0,
                    identity: replies[1]->Identity_0,
                },
            )
            &&& n == 4 ==> next == Some(OperationView::SeekToStart { fd: replies[2]->Descriptor_0 })
            &&& n == 5 ==> next == Some(
                OperationView::AddSeals {
                    fd: replies[2]->Descriptor_0,
                    seals: Seals { seal: true, write: true, shrink: true, grow: true },
                },
            )
            &&& n == 6 ==> next == Some(
                OperationView::SetVar {
                    name: "FERROVAULT_IDENTITY_FD"@,
                    value: signed_decimal(replies[2]->Descriptor_0 as int),
                },
            )
            &&& n == 7 ==> next == Some(
                OperationView::WriteFile {
                    path: "/sys/fs/cgroup/cgroup.subtree_control"@,
                    contents: "+memory +cpu +pids"@,
                },
            )
            &&& n == 8 ==> next == Some(
                OperationView::CreateDirAll {
                    path: "/sys/fs/cgroup/ferrovault"@,
                },
            )
            &&& n == 9 ==> next == Some(
                OperationView::WriteFile {
                    path: "/sys/fs/cgroup/ferrovault/memory.max"@,
                    contents: decimal(limits.memory_max_bytes as nat),
                },
            )
            &&& n == 10 ==> next == Some(
                OperationView::WriteFile {
                    path: "/sys/fs/cgroup/ferrovault/cpu.max"@,
                    contents: decimal(limits.cpu_quota_us as nat) + " "@
                        + decimal(limits.cpu_period_us as nat),
                },
            )
            &&& n == 11 ==> next == Some(
                OperationView::WriteFile {
                    path: "/sys/fs/cgroup/ferrovault/pids.max"@,
                    contents: decimal(limits.pids_max as nat),
                },
            )
            &&& n == 12 ==> next == Some(OperationView::Fork)
            &&& n == 13 && replies[12] is Parent ==> next == Some(
                OperationView::Wait {
                    child: replies[12]->child,
                },
            )
            &&& n == 13 && replies[12] is Failed ==> next == Some(
                OperationView::RemoveDir {
                    path: "/sys/fs/cgroup/ferrovault"@,
                },
            )
            &&& n == 14 && replies[12] is Parent ==> next == Some(
                OperationView::RemoveDir {
                    path: "/sys/fs/cgroup/ferrovault"@,
                },
            )
        }),
{
    lemma_course(limits, replies);
    reveal(place);
    lemma_paths();
}

/// What the processes of the container ask for, in order. The container process joins the cgroup by
/// its own number, enters its namespaces, cuts the propagation of mounts, forks, and waits for
/// the child that it forked and no other. That child moves into the root file system, mounts
/// procfs, reads the identity from the descriptor that the environment names, installs the
/// filter of the allowed calls, and becomes the shell.
#[verifier::rlimit(80)]
pub proof fn law_container_asks(limits: CgroupLimits, replies: Seq<ReplyView>)
    requires
        possible(limits, replies),
        !(run(limits, replies).process is Exited),
        !(run(limits, replies).process is Panicked),
        replies.len() > 12,
        replies[12] is Child,
    ensures
        ({
            let next = run(limits, replies).process.asks(limits);
            let n = replies.len();
            &&& n == 13 ==> next == Some(OperationView::GetPid)
            &&& n == 14 ==> next == Some(
                OperationView::WriteFile {
                    path: "/sys/fs/cgroup/ferrovault/cgroup.procs"@,
                    contents: signed_decimal(replies[13]->Pid_0 as int),
                },
            )
            &&& n == 15 ==> next == Some(
                OperationView::Unshare {
                    namespaces: Namespaces { pid: true, mount: true, ipc: true },
                },
            )
            &&& n == 16 ==> next == Some(
                OperationView::Mount {
                    source: None,
                    target: "/"@,
                    fstype: None,
                    flags: MountFlags {
                        bind: false,
                        recursive: true,
                        private: true,
                        remount: false,
                        read_only: false,
                        no_suid: false,
                        no_dev: false,
                        no_exec: false,
                    },
                },
            )
            &&& n == 17 ==> next == Some(OperationView::Fork)
            &&& n == 18 && replies[17] is Parent ==> next == Some(
                OperationView::Wait {
                    child: replies[17]->child,
                },
            )
            &&& n == 18 && replies[17] is Child ==> next == Some(
                OperationView::Mount {
                    source: Some("/workspace/rootfs"@),
                    target: "/workspace/rootfs"@,
                    fstype: None,
                    flags: MountFlags {
                        bind: true,
                        recursive: true,
                        private: false,
                        remount: false,
                        read_only: false,
                        no_suid: false,
                        no_dev: false,
                        no_exec: false,
                    },
                },
            )
            &&& n == 19 ==> next == Some(
                OperationView::CreateDirAll {
                    path: "/workspace/rootfs/.oldroot"@,
                },
            )
            &&& n == 20 ==> next == Some(OperationView::ChangeDir { path: "/workspace/rootfs"@ })
            &&& n == 21 ==> next == Some(
                OperationView::PivotRoot {
                    new_root: "."@,
                    put_old: ".oldroot"@,
                },
            )
            &&& n == 22 ==> next == Some(OperationView::ChangeDir { path: "/"@ })
            &&& n == 23 ==> next == Some(
                OperationView::Unmount {
                    target: "/.oldroot"@,
                    detach: true,
                },
            )
            &&& n == 24 ==> next == Some(OperationView::RemoveDir { path: "/.oldroot"@ })
            &&& n == 25 ==> next == Some(
                OperationView::Mount {
                    source: None,
                    target: "/"@,
                    fstype: None,
                    flags: MountFlags {
                        bind: true,
                        recursive: true,
                        private: false,
                        remount: true,
                        read_only: true,
                        no_suid: false,
                        no_dev: false,
                        no_exec: false,
                    },
                },
            )
            &&& n == 26 ==> next == Some(
                OperationView::Mount {
                    source: Some("proc"@),
                    target: "/proc"@,
                    fstype: Some("proc"@),
                    flags: MountFlags {
                        bind: false,
                        recursive: false,
                        private: false,
                        remount: false,
                        read_only: false,
                        no_suid: true,
                        no_dev: true,
                        no_exec: true,
                    },
                },
            )
            &&& n == 27 ==> next == Some(OperationView::GetVar { name: "FERROVAULT_IDENTITY_FD"@ })
            &&& n == 28 ==> next == Some(
                OperationView::ReadIdentity {
                    fd: read_i32(replies[27]->Value_0)->Ok_0,
                },
            )
            &&& n == 29 ==> next == Some(
                OperationView::InstallFilter {
                    program: filter_program(
                        seq![
                            0u32, 1, 2, 3, 4, 5, 6, 7, 8, 9, 10, 11, 12, 13,
                            14, 15, 16, 19, 20, 21, 22, 32, 33, 35, 39, 40, 57, 58,
                            59, 60, 61, 62, 63, 72, 79, 80, 89, 95, 99, 102, 104, 105,
                            106, 107, 108, 109, 110, 121, 158, 186, 217, 218, 228, 231, 257, 280,
                        ],
                    ),
                },
            )
            &&& n == 30 ==> next == Some(
                OperationView::Exec {
                    path: "/bin/sh"@,
                    args: seq!["/bin/sh"@],
                },
            )
        }),
{
    lemma_course(limits, replies);
    reveal(place);
    lemma_paths();
    law_allowed_calls();
}

/// How the provisioning takes each answer: any failure, and a write of anything but thirty-two
/// bytes, is a panic that names the operation and the error, and otherwise the manager goes on;
/// the sealed file is reported with its number.
#[verifier::rlimit(80)]
pub proof fn law_identity_answers(
    limits: CgroupLimits,
    replies: Seq<ReplyView>,
    reply: ReplyView,
)
    requires
        possible(limits, replies),
        run(limits, replies).process.awaits(limits, reply),
        replies.len() <= 6,
    ensures
        ({
            let before = run(limits, replies);
            let after = run(limits, replies.push(reply));
            let goes_on = !(after.process is Exited) && !(after.process is Panicked);
            let n = replies.len();
            &&& n == 0 && reply is Failed ==> after.process == Process::Panicked
                && after.lines == before.lines + seq![
                LineView {
                    stream: Stream::Panic,
                    text: "open /dev/urandom: "@ + reply->Failed_0.debug,
                },
            ]
            &&& n == 0 && !(reply is Failed) ==> goes_on && after.lines == before.lines
            &&& n == 1 && reply is Failed ==> after.process == Process::Panicked
                && after.lines == before.lines + seq![
                LineView {
                    stream: Stream::Panic,
                    text: "read urandom: "@ + reply->Failed_0.debug,
                },
            ]
            &&& n == 1 && !(reply is Failed) ==> goes_on && after.lines == before.lines
            &&& n == 2 && reply is Failed ==> after.process == Process::Panicked
                && after.lines == before.lines + seq![
                LineView {
                    stream: Stream::Panic,
                    text: "memfd_create failed: "@ + reply->Failed_0.debug,
                },
            ]
            &&& n == 2 && !(reply is Failed) ==> goes_on && after.lines == before.lines
            &&& n == 3 && reply is Failed ==> after.process == Process::Panicked
                && after.lines == before.lines + seq![
                LineView {
                    stream: Stream::Panic,
                    text: "write identity to memfd: "@ + reply->Failed_0.debug,
                },
            ]
            &&& n == 3 && reply is Written && reply->Written_count != 32
                ==> after.process == Process::Panicked && after.lines == before.lines + seq![
                LineView {
                    stream: Stream::Panic,
                    text: "write identity to memfd: "@
                        + (decimal(reply->Written_count as nat) + " of 32 bytes"@),
                },
            ]
            &&& n == 3 && reply is Written && reply->Written_count == 32 ==> goes_on
                && after.lines == before.lines
            &&& n == 4 && reply is Failed ==> after.process == Process::Panicked
                && after.lines == before.lines + seq![
                LineView { stream: Stream::Panic, text: "lseek memfd: "@ + reply->Failed_0.debug },
            ]
            &&& n == 4 && !(reply is Failed) ==> goes_on && after.lines == before.lines
            &&& n == 5 && reply is Failed ==> after.process == Process::Panicked
                && after.lines == before.lines + seq![
                LineView {
                    stream: Stream::Panic,
                    text: "seal memfd failed: "@ + reply->Failed_0.debug,
                },
            ]
            &&& n == 5 && !(reply is Failed) ==> goes_on && after.lines == before.lines + seq![
                LineView {
                    stream: Stream::Stdout,
                    text: "Manager: Identity provisioned — 32 bytes sealed in memfd (fd="@
                        + signed_decimal(replies[2]->Descriptor_0 as int) + ")."@,
                },
            ]
            &&& n == 6 ==> goes_on && after.lines == before.lines
        }),
{
    lemma_answer(limits, replies, reply);
    reveal(place);
    if reply is Written {
        lemma_incomplete(reply->Written_count);
    }
}

/// How the setup of the cgroup takes each answer. Whatever the error, a failure to enable the
/// controllers or to write a limit is reported and the manager goes on; only a failure to create
/// the directory is a panic.
#[verifier::rlimit(80)]
pub proof fn law_cgroup_answers(
    limits: CgroupLimits,
    replies: Seq<ReplyView>,
    reply: ReplyView,
)
    requires
        possible(limits, replies),
        run(limits, replies).process.awaits(limits, reply),
        7 <= replies.len() <= 11,
    ensures
        ({
            let before = run(limits, replies);
            let after = run(limits, replies.push(reply));
            let goes_on = !(after.process is Exited) && !(after.process is Panicked);
            let n = replies.len();
            &&& n == 7 && reply is Failed ==> goes_on && after.lines == before.lines + seq![
                LineView {
                    stream: Stream::Stderr,
                    text: "Manager: cgroup.subtree_control (best-effort): "@
                        + reply->Failed_0.display,
                },
            ]
            &&& n == 7 && !(reply is Failed) ==> goes_on && after.lines == before.lines
            &&& n == 8 && reply is Failed ==> after.process == Process::Panicked
                && after.lines == before.lines + seq![
                LineView {
                    stream: Stream::Panic,
                    text: "create cgroup directory: "@ + reply->Failed_0.debug,
                },
            ]
            &&& n == 8 && !(reply is Failed) ==> goes_on && after.lines == before.lines
            &&& n == 9 && reply is Failed ==> goes_on && after.lines == before.lines + seq![
                LineView {
                    stream: Stream::Stderr,
                    text: "Manager:   memory.max (skipped): "@ + reply->Failed_0.display,
                },
            ]
            &&& n == 9 && !(reply is Failed) ==> goes_on && after.lines == before.lines + seq![
                LineView {
                    stream: Stream::Stdout,
                    text: "Manager:   memory.max = "@ + decimal(limits.memory_max_bytes as nat),
                },
            ]
            &&& n == 10 && reply is Failed ==> goes_on && after.lines == before.lines + seq![
                LineView {
                    stream: Stream::Stderr,
                    text: "Manager:   cpu.max (skipped): "@ + reply->Failed_0.display,
                },
            ]
            &&& n == 10 && !(reply is Failed) ==> goes_on && after.lines == before.lines + seq![
                LineView {
                    stream: Stream::Stdout,
                    text: "Manager:   cpu.max = "@
                        + (decimal(limits.cpu_quota_us as nat) + " "@
                        + decimal(limits.cpu_period_us as nat)),
                },
            ]
            &&& n == 11 && reply is Failed ==> goes_on && after.lines == before.lines + seq![
                LineView {
                    stream: Stream::Stderr,
                    text: "Manager:   pids.max (skipped): "@ + reply->Failed_0.display,
                },
                LineView {
                    stream: Stream::Stdout,
                    text: "Manager: Cgroup ready at /sys/fs/cgroup/ferrovault."@,
                },
            ]
            &&& n == 11 && !(reply is Failed) ==> goes_on && after.lines == before.lines + seq![
                LineView {
                    stream: Stream::Stdout,
                    text: "Manager:   pids.max = "@ + decimal(limits.pids_max as nat),
                },
                LineView {
                    stream: Stream::Stdout,
                    text: "Manager: Cgroup ready at /sys/fs/cgroup/ferrovault."@,
                },
            ]
        }),
{
    lemma_answer(limits, replies, reply);
    reveal(place);
    lemma_reports();
    lemma_limit_reports();
}

/// How the manager takes the answers to its fork, its wait and the removal of the cgroup: a failure
/// of any of them is reported, and it exits with status 1 where the fork failed and with status 0
/// otherwise.
#[verifier::rlimit(80)]
pub proof fn law_manager_answers(
    limits: CgroupLimits,
    replies: Seq<ReplyView>,
    reply: ReplyView,
)
    requires
        possible(limits, replies),
        run(limits, replies).process.awaits(limits, reply),
        replies.len() >= 12,
        replies.len() > 12 ==> !(replies[12] is Child),
    ensures
        ({
            let before = run(limits, replies);
            let after = run(limits, replies.push(reply));
            let goes_on = !(after.process is Exited) && !(after.process is Panicked);
            let n = replies.len();
            &&& n == 12 && reply is Failed ==> goes_on && after.lines == before.lines + seq![
                LineView {
                    stream: Stream::Stderr,
                    text: "Manager: fork failed: "@ + reply->Failed_0.display,
                },
            ]
            &&& n == 12 && reply is Parent ==> goes_on && after.lines == before.lines + seq![
                LineView {
                    stream: Stream::Stdout,
                    text: "Manager: Spawned container process PID "@
                        + signed_decimal(reply->child as int),
                },
            ]
            &&& n == 12 && reply is Child ==> goes_on && after.lines == before.lines
            &&& n == 13 && replies[12] is Parent && reply is Failed ==> goes_on
                && after.lines == before.lines + seq![
                LineView {
                    stream: Stream::Stderr,
                    text: "Manager: waitpid error: "@ + reply->Failed_0.display,
                },
            ]
            &&& n == 13 && replies[12] is Parent && reply is Status ==> goes_on
                && after.lines == before.lines + seq![
                LineView {
                    stream: Stream::Stdout,
                    text: "Manager: Container exited with status: "@ + reply->Status_0,
                },
            ]
            &&& n == 13 && replies[12] is Failed && reply is Failed
                ==> after.process == Process::Exited(1) && after.lines == before.lines + seq![
                LineView {
                    stream: Stream::Stderr,
                    text: "Manager: cgroup cleanup: "@ + reply->Failed_0.display,
                },
            ]
            &&& n == 13 && replies[12] is Failed && !(reply is Failed)
                ==> after.process == Process::Exited(1) && after.lines == before.lines + seq![
                LineView { stream: Stream::Stdout, text: "Manager: Cgroup removed."@ },
            ]
            &&& n == 14 && replies[12] is Parent && reply is Failed
                ==> after.process == Process::Exited(0) && after.lines == before.lines + seq![
                LineView {
                    stream: Stream::Stderr,
                    text: "Manager: cgroup cleanup: "@ + reply->Failed_0.display,
                },
            ]
            &&& n == 14 && replies[12] is Parent && !(reply is Failed)
                ==> after.process == Process::Exited(0) && after.lines == before.lines + seq![
                LineView { stream: Stream::Stdout, text: "Manager: Cgroup removed."@ },
            ]
        }),
{
    lemma_answer(limits, replies, reply);
    reveal(place);
}

/// How the container process takes each answer: a failure is reported and ends it with status 1;
/// after the wait it exits with status 0, however its child ended.
#[verifier::rlimit(80)]
pub proof fn law_namespaces_answers(
    limits: CgroupLimits,
    replies: Seq<ReplyView>,
    reply: ReplyView,
)
    requires
        possible(limits, replies),
        run(limits, replies).process.awaits(limits, reply),
        replies.len() > 12,
        replies[12] is Child,
        replies.len() <= 17 || replies[17] is Parent,
    ensures
        ({
            let before = run(limits, replies);
            let after = run(limits, replies.push(reply));
            let goes_on = !(after.process is Exited) && !(after.process is Panicked);
            let n = replies.len();
            &&& n == 13 ==> goes_on && after.lines == before.lines
            &&& n == 14 && reply is Failed ==> after.process == Process::Exited(1)
                && after.lines == before.lines + seq![
                LineView {
                    stream: Stream::Stderr,
                    text: "Container: cgroup self-assign failed: "@ + reply->Failed_0.display,
                },
            ]
            &&& n == 14 && !(reply is Failed) ==> goes_on && after.lines == before.lines + seq![
                LineView {
                    stream: Stream::Stdout,
                    text: "Container: Assigned to cgroup (PID "@
                        + signed_decimal(replies[13]->Pid_0 as int) + ")."@,
                },
            ]
            &&& n == 15 && reply is Failed ==> after.process == Process::Exited(1)
                && after.lines == before.lines + seq![
                LineView {
                    stream: Stream::Stderr,
                    text: "Container: unshare failed: "@ + reply->Failed_0.display,
                },
            ]
            &&& n == 15 && !(reply is Failed) ==> goes_on && after.lines == before.lines
            &&& n == 16 && reply is Failed ==> after.process == Process::Exited(1)
                && after.lines == before.lines + seq![
                LineView {
                    stream: Stream::Stderr,
                    text: "Container: failed to make mounts private: "@
                        + reply->Failed_0.display,
                },
            ]
            &&& n == 16 && !(reply is Failed) ==> goes_on && after.lines == before.lines + seq![
                LineView {
                    stream: Stream::Stdout,
                    text: "Container: Namespaces created. Forking into new PID namespace..."@,
                },
            ]
            &&& n == 17 && reply is Failed ==> after.process == Process::Exited(1)
                && after.lines == before.lines + seq![
                LineView {
                    stream: Stream::Stderr,
                    text: "Namespace-init: second fork failed: "@ + reply->Failed_0.display,
                },
            ]
            &&& n == 17 && reply is Parent ==> goes_on && after.lines == before.lines
            &&& n == 17 && reply is Child ==> goes_on && after.lines == before.lines + seq![
                LineView {
                    stream: Stream::Stdout,
                    text: "Container: Entered new PID namespace. I am PID 1."@,
                },
            ]
            &&& n == 18 && reply is Failed ==> after.process == Process::Exited(1)
                && after.lines == before.lines + seq![
                LineView {
                    stream: Stream::Stderr,
                    text: "Namespace-init: waitpid error: "@ + reply->Failed_0.display,
                },
            ]
            &&& n == 18 && !(reply is Failed) ==> after.process == Process::Exited(0)
                && after.lines == before.lines
        }),
{
    lemma_answer(limits, replies, reply);
    reveal(place);
}

/// How the move into the root file system takes each answer: a failure is reported and ends the
/// process with status 1, and the completed move is reported.
#[verifier::rlimit(80)]
pub proof fn law_pivot_answers(
    limits: CgroupLimits,
    replies: Seq<ReplyView>,
    reply: ReplyView,
)
    requires
        possible(limits, replies),
        run(limits, replies).process.awaits(limits, reply),
        18 <= replies.len() <= 25,
        replies[12] is Child,
        replies[17] is Child,
    ensures
        ({
            let before = run(limits, replies);
            let after = run(limits, replies.push(reply));
            let goes_on = !(after.process is Exited) && !(after.process is Panicked);
            let n = replies.len();
            &&& n == 18 && reply is Failed ==> after.process == Process::Exited(1)
                && after.lines == before.lines + seq![
                LineView {
                    stream: Stream::Stderr,
                    text: "Container: failed to bind-mount rootfs: "@ + reply->Failed_0.display,
                },
            ]
            &&& n == 18 && !(reply is Failed) ==> goes_on && after.lines == before.lines
            &&& n == 19 && reply is Failed ==> after.process == Process::Exited(1)
                && after.lines == before.lines + seq![
                LineView {
                    stream: Stream::Stderr,
                    text: "Container: failed to create pivot_root put_old dir: "@
                        + reply->Failed_0.display,
                },
            ]
            &&& n == 19 && !(reply is Failed) ==> goes_on && after.lines == before.lines
            &&& n == 20 && reply is Failed ==> after.process == Process::Exited(1)
                && after.lines == before.lines + seq![
                LineView {
                    stream: Stream::Stderr,
                    text: "Container: chdir into rootfs failed: "@ + reply->Failed_0.display,
                },
            ]
            &&& n == 20 && !(reply is Failed) ==> goes_on && after.lines == before.lines
            &&& n == 21 && reply is Failed ==> after.process == Process::Exited(1)
                && after.lines == before.lines + seq![
                LineView {
                    stream: Stream::Stderr,
                    text: "Container: pivot_root failed: "@ + reply->Failed_0.display,
                },
            ]
            &&& n == 21 && !(reply is Failed) ==> goes_on && after.lines == before.lines
            &&& n == 22 && reply is Failed ==> after.process == Process::Exited(1)
                && after.lines == before.lines + seq![
                LineView {
                    stream: Stream::Stderr,
                    text: "Container: chdir to new / failed: "@ + reply->Failed_0.display,
                },
            ]
            &&& n == 22 && !(reply is Failed) ==> goes_on && after.lines == before.lines
            &&& n == 23 && reply is Failed ==> after.process == Process::Exited(1)
                && after.lines == before.lines + seq![
                LineView {
                    stream: Stream::Stderr,
                    text: "Container: failed to unmount old root: "@ + reply->Failed_0.display,
                },
            ]
            &&& n == 23 && !(reply is Failed) ==> goes_on && after.lines == before.lines
            &&& n == 24 && reply is Failed ==> after.process == Process::Exited(1)
                && after.lines == before.lines + seq![
                LineView {
                    stream: Stream::Stderr,
                    text: "Container: failed to remove old root mountpoint: "@
                        + reply->Failed_0.display,
                },
            ]
            &&& n == 24 && !(reply is Failed) ==> goes_on && after.lines == before.lines
            &&& n == 25 && reply is Failed ==> after.process == Process::Exited(1)
                && after.lines == before.lines + seq![
                LineView {
                    stream: Stream::Stderr,
                    text: "Container: failed to remount rootfs read-only: "@
                        + reply->Failed_0.display,
                },
            ]
            &&& n == 25 && !(reply is Failed) ==> goes_on && after.lines == before.lines + seq![
                LineView {
                    stream: Stream::Stdout,
                    text: "Container: pivoted into isolated rootfs at /workspace/rootfs (now read-only)."@,
                },
            ]
        }),
{
    lemma_answer(limits, replies, reply);
    reveal(place);
    lemma_reports();
}

/// How the first process of the container takes each answer from the mount of procfs on. What it
/// shows of the identity is the hexadecimal form of all thirty-two bytes that were read, in
/// order, and it shows them only where there are that many.
#[verifier::rlimit(80)]
pub proof fn law_payload_answers(
    limits: CgroupLimits,
    replies: Seq<ReplyView>,
    reply: ReplyView,
)
    requires
        possible(limits, replies),
        run(limits, replies).process.awaits(limits, reply),
        replies.len() >= 26,
        replies[12] is Child,
        replies[17] is Child,
    ensures
        ({
            let before = run(limits, replies);
            let after = run(limits, replies.push(reply));
            let goes_on = !(after.process is Exited) && !(after.process is Panicked);
            let number = read_i32(reply->Value_0);
            let n = replies.len();
            &&& n == 26 && reply is Failed ==> after.process == Process::Exited(1)
                && after.lines == before.lines + seq![
                LineView {
                    stream: Stream::Stderr,
                    text: "Container: failed to mount procfs: "@ + reply->Failed_0.display,
                },
            ]
            &&& n == 26 && !(reply is Failed) ==> goes_on && after.lines == before.lines + seq![
                LineView {
                    stream: Stream::Stdout,
                    text: "Container: /proc mounted. Only this namespace's processes are visible."@,
                },
            ]
            &&& n == 27 && reply is Failed ==> after.process == Process::Panicked
                && after.lines == before.lines + seq![
                LineView {
                    stream: Stream::Panic,
                    text: "FERROVAULT_IDENTITY_FD not set: "@ + reply->Failed_0.debug,
                },
            ]
            &&& n == 27 && reply is Value && number is Ok ==> goes_on && after.lines == before.lines
            &&& n == 27 && reply is Value && number == Err::<i32, IntFault>(IntFault::Empty)
                ==> after.process == Process::Panicked && after.lines == before.lines + seq![
                LineView {
                    stream: Stream::Panic,
                    text: "invalid fd number: "@ + "ParseIntError { kind: Empty }"@,
                },
            ]
            &&& n == 27 && reply is Value && number == Err::<i32, IntFault>(IntFault::InvalidDigit)
                ==> after.process == Process::Panicked && after.lines == before.lines + seq![
                LineView {
                    stream: Stream::Panic,
                    text: "invalid fd number: "@ + "ParseIntError { kind: InvalidDigit }"@,
                },
            ]
            &&& n == 27 && reply is Value && number == Err::<i32, IntFault>(IntFault::PosOverflow)
                ==> after.process == Process::Panicked && after.lines == before.lines + seq![
                LineView {
                    stream: Stream::Panic,
                    text: "invalid fd number: "@ + "ParseIntError { kind: PosOverflow }"@,
                },
            ]
            &&& n == 27 && reply is Value && number == Err::<i32, IntFault>(IntFault::NegOverflow)
                ==> after.process == Process::Panicked && after.lines == before.lines + seq![
                LineView {
                    stream: Stream::Panic,
                    text: "invalid fd number: "@ + "ParseIntError { kind: NegOverflow }"@,
                },
            ]
            &&& n == 28 && reply is Failed ==> after.process == Process::Panicked
                && after.lines == before.lines + seq![
                LineView {
                    stream: Stream::Panic,
                    text: "read identity from memfd: "@ + reply->Failed_0.debug,
                },
            ]
            &&& n == 28 && reply is Received && reply->Received_count != 32
                ==> after.process == Process::Panicked && after.lines == before.lines + seq![
                LineView {
                    stream: Stream::Panic,
                    text: "read identity from memfd: "@
                        + (decimal(reply->Received_count as nat) + " of 32 bytes"@),
                },
            ]
            &&& n == 28 && reply is Received && reply->Received_count == 32 ==> goes_on
                && after.lines == before.lines + seq![
                LineView {
                    stream: Stream::Stdout,
                    text: "Container: Identity received — 0x"@ + hex(reply->Received_buffer@),
                },
            ]
            &&& n == 29 && reply is Failed ==> after.process == Process::Exited(1)
                && after.lines == before.lines + seq![
                LineView {
                    stream: Stream::Stderr,
                    text: "Container: failed to install seccomp filter: "@
                        + reply->Failed_0.display,
                },
            ]
            &&& n == 29 && !(reply is Failed) ==> goes_on && after.lines == before.lines + seq![
                LineView {
                    stream: Stream::Stdout,
                    text: "Container: seccomp filter installed — 56 syscalls allowed, everything else kills the process."@,
                },
            ]
            &&& n == 30 ==> after.process == Process::Exited(1)
                && after.lines == before.lines + seq![
                LineView {
                    stream: Stream::Stderr,
                    text: "Container: execvp failed: "@ + reply->Failed_0.display,
                },
            ]
        }),
{
    lemma_answer(limits, replies, reply);
    reveal(place);
    law_confined_line();
    law_faults_shown();
    if reply is Received {
        lemma_incomplete(reply->Received_count);
    }
}

/// Each fork is waited for by number: the manager waits for the container process that its fork
/// gave it, and the container process for the child of its own fork.
#[verifier::rlimit(40)]
pub proof fn law_waits_for_forked_child(limits: CgroupLimits, replies: Seq<ReplyView>)
    requires
        possible(limits, replies),
    ensures
        run(limits, replies).operations.len() == replies.len(),
        replies.len() > 13 && replies[12] is Parent ==> run(limits, replies).operations[13] == (
        OperationView::Wait { child: replies[12]->child }),
        replies.len() > 18 && replies[12] is Child && replies[17] is Parent ==> run(
            limits,
            replies,
        ).operations[18] == (OperationView::Wait { child: replies[17]->child }),
{
    lemma_course(limits, replies);
    reveal(place);
}

/// Neither the controllers nor a limit stop the manager: whatever the answers were, after the
/// write that enables the controllers it asks for the cgroup directory, and after the write of
/// each limit it goes on to the next and at last to the fork.
#[verifier::rlimit(40)]
pub proof fn law_limits_are_best_effort(limits: CgroupLimits, replies: Seq<ReplyView>)
    requires
        possible(limits, replies),
        replies.len() == 8 || 10 <= replies.len() <= 12,
    ensures
        ({
            let now = run(limits, replies);
            &&& !(now.process is Exited) && !(now.process is Panicked)
            &&& replies.len() == 8 ==> now.process.asks(limits) == Some(
                OperationView::CreateDirAll { path: "/sys/fs/cgroup/ferrovault"@ },
            )
            &&& replies.len() == 10 ==> now.process.asks(limits) == Some(
                OperationView::WriteFile {
                    path: "/sys/fs/cgroup/ferrovault/cpu.max"@,
                    contents: decimal(limits.cpu_quota_us as nat) + " "@
                        + decimal(limits.cpu_period_us as nat),
                },
            )
            &&& replies.len() == 11 ==> now.process.asks(limits) == Some(
                OperationView::WriteFile {
                    path: "/sys/fs/cgroup/ferrovault/pids.max"@,
                    contents: decimal(limits.pids_max as nat),
                },
            )
            &&& replies.len() == 12 ==> now.process.asks(limits) == Some(OperationView::Fork)
        }),
{
    let before = replies.drop_last();
    assert(before.push(replies.last()) =~= replies);
    law_cgroup_answers(limits, before, replies.last());
    law_manager_asks(limits, replies);
}

/// The line that shows an identity gives each of its bytes: after the `0x` two characters stand for
/// each byte in turn. So the lines for two identities are the same only where the identities are.
pub proof fn law_identity_line(a: [u8; 32], b: [u8; 32], k: int)
    requires
        0 <= k < 32,
    ensures
        ({
            let shown = "Container: Identity received — 0x"@ + hex(a@);
            let other = "Container: Identity received — 0x"@ + hex(b@);
            let start = "Container: Identity received — 0x"@.len() as int;
            let high = shown[start + 2 * k];
            let low = shown[start + 2 * k + 1];
            &&& shown.len() == start + 64
            &&& a@[k] == 16 * (if high <= '9' {
                high as int - '0' as int
            } else {
                high as int - 'a' as int + 10
            }) + (if low <= '9' {
                low as int - '0' as int
            } else {
                low as int - 'a' as int + 10
            })
            &&& shown == other ==> a@ == b@
        }),
{
    law_hex_reads_back(a@, k);
    let start = "Container: Identity received — 0x"@;
    if start + hex(a@) == start + hex(b@) {
        assert((start + hex(a@)).skip(start.len() as int) =~= hex(a@));
        assert((start + hex(b@)).skip(start.len() as int) =~= hex(b@));
        law_hex_injective(a@, b@);
    }
}

} // verus!
