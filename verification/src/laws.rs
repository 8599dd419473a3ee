//! What the runtime promises of every run, whatever the system answers.

use crate::cgroup::{cgroup_ready, limit_line};
use crate::course::{
    alive, lemma_course, lemma_lines, passed, place, position, possible, run,
};
use crate::hex::hex;
use crate::identity::provisioned;
use crate::limits::CgroupLimits;
use crate::namespaces::{assigned, NamespacesStage};
use crate::outcomes::{lemma_limit_reports, lemma_reports};
use crate::payload::{confined, entered, law_confined_line, received, PayloadStage};
use crate::process::{starting, Process};
use crate::rootfs::{pivoted, PivotStage};
use crate::seccomp::{
    allowed_calls, evaluate, law_allowed_calls, law_filter_gives_verdict, verdict, Syscall,
};
use crate::step::{err, out};
use crate::system::{
    LineView, MountFlags, Namespaces, OperationView, ReplyView, Seals, CGROUP_PATH, IDENTITY_FD_VAR,
    IDENTITY_LEN, ROOTFS_PATH,
};
use crate::text::{decimal, law_descriptor_round_trip, read_i32, signed_decimal};
use vstd::prelude::*;

verus! {

/// Every process ends: it asks the system for at most thirty-one things, those that its
/// ancestors asked for before the forks that led to it among them.
pub proof fn law_every_process_ends(limits: CgroupLimits, replies: Seq<ReplyView>)
    requires
        possible(limits, replies),
    ensures
        replies.len() <= 31,
{
    lemma_course(limits, replies);
    if replies.len() > 31 {
        reveal(passed);
        assert(passed(limits, replies, 31));
    }
}

/// No process is forked before the identity is safe: random bytes were drawn, written in full to
/// a memory file that survives an exec, and its offset set back; all four seals are on the file,
/// and the number of its descriptor is in the environment.
#[verifier::rlimit(40)]
pub proof fn law_identity_sealed_before_fork(
    limits: CgroupLimits,
    replies: Seq<ReplyView>,
    i: int,
)
    requires
        possible(limits, replies),
        0 <= i < replies.len(),
        run(limits, replies).operations[i] == OperationView::Fork,
    ensures
        ({
            let operations = run(limits, replies).operations;
            let identity = replies[1]->Identity_0;
            let fd = replies[2]->Descriptor_0;
            &&& i >= 12
            &&& operations[0] == OperationView::OpenFile { path: "/dev/urandom"@ }
            &&& operations[1] == OperationView::ReadOpened
            &&& replies[1] is Identity
            &&& operations[2] == OperationView::CreateMemfd {
                name: "ferrovault-identity"@,
                allow_sealing: true,
                close_on_exec: false,
            }
            &&& replies[2] is Descriptor
            &&& operations[3] == OperationView::WriteIdentity { fd, identity }
            &&& replies[3] == (ReplyView::Written { count: IDENTITY_LEN })
            &&& operations[4] == OperationView::SeekToStart { fd }
            &&& replies[4] is Done
            &&& operations[5] == OperationView::AddSeals {
                fd,
                seals: Seals { seal: true, write: true, shrink: true, grow: true },
            }
            &&& replies[5] is Done
            &&& operations[6] == OperationView::SetVar {
                name: IDENTITY_FD_VAR@,
                value: signed_decimal(fd as int),
            }
            &&& replies[6] is Done
        }),
{
    lemma_course(limits, replies);
    reveal(place);
    reveal(passed);
    assert(passed(limits, replies, i));
    assert(i >= 12);
    assert(passed(limits, replies, 0));
    assert(passed(limits, replies, 1));
    assert(passed(limits, replies, 2));
    assert(passed(limits, replies, 3));
    assert(passed(limits, replies, 4));
    assert(passed(limits, replies, 5));
    assert(passed(limits, replies, 6));
}

/// The identity is written once, as it was drawn, to the descriptor of the memory file, and
/// before the file is sealed.
#[verifier::rlimit(40)]
pub proof fn law_identity_written_once(limits: CgroupLimits, replies: Seq<ReplyView>, i: int)
    requires
        possible(limits, replies),
        0 <= i < replies.len(),
        run(limits, replies).operations[i] is WriteIdentity,
    ensures
        i == 3,
        run(limits, replies).operations[i] == (OperationView::WriteIdentity {
            fd: replies[2]->Descriptor_0,
            identity: replies[1]->Identity_0,
        }),
        forall|k: int|
            0 <= k <= i ==> !((#[trigger] run(limits, replies).operations[k]) is AddSeals),
{
    lemma_course(limits, replies);
    reveal(place);
    reveal(passed);
    assert(passed(limits, replies, i));
}

/// Whether two replies are the same but for the bytes of an identity.
pub open spec fn same_but_for_bytes(a: ReplyView, b: ReplyView) -> bool {
    match a {
        ReplyView::Identity(_) => b is Identity,
        ReplyView::Received { count, .. } => b is Received && b->Received_count == count,
        _ => a == b,
    }
}

/// Nothing that is asked of the system depends on the identity, but for the one write of it:
/// where the replies of two runs differ in the bytes that were drawn and read alone, all other
/// operations are the same.
#[verifier::rlimit(40)]
pub proof fn law_operations_hide_identity(
    limits: CgroupLimits,
    a: Seq<ReplyView>,
    b: Seq<ReplyView>,
    i: int,
)
    requires
        possible(limits, a),
        possible(limits, b),
        a.len() == b.len(),
        forall|k: int| 0 <= k < a.len() ==> same_but_for_bytes(#[trigger] a[k], b[k]),
        0 <= i < a.len(),
        !(run(limits, a).operations[i] is WriteIdentity),
    ensures
        run(limits, a).operations[i] == run(limits, b).operations[i],
{
    lemma_course(limits, a);
    lemma_course(limits, b);
    reveal(place);
    reveal(passed);
    assert(passed(limits, a, i));
    assert(passed(limits, b, i));
    if i > 1 {
        assert(passed(limits, a, 1));
    }
    if i > 2 {
        assert(passed(limits, a, 2));
    }
    if i > 12 {
        assert(passed(limits, a, 12));
    }
    if i > 13 {
        assert(passed(limits, a, 13));
    }
    if i > 17 {
        assert(passed(limits, a, 17));
    }
    if i > 27 {
        assert(passed(limits, a, 27));
    }
}

/// No process is forked before the cgroup exists and each of its control files has been
/// offered its limit.
#[verifier::rlimit(40)]
pub proof fn law_cgroup_set_up_before_fork(limits: CgroupLimits, replies: Seq<ReplyView>, i: int)
    requires
        possible(limits, replies),
        0 <= i < replies.len(),
        run(limits, replies).operations[i] == OperationView::Fork,
    ensures
        ({
            let operations = run(limits, replies).operations;
            &&& i >= 12
            &&& operations[8] == OperationView::CreateDirAll { path: CGROUP_PATH@ }
            &&& replies[8] is Done
            &&& forall|k: int|
                0 <= k < 3 ==> (#[trigger] operations[9 + k]) == OperationView::WriteFile {
                    path: CGROUP_PATH@ + "/"@ + limits.writes()[k].0,
                    contents: limits.writes()[k].1,
                }
        }),
{
    lemma_course(limits, replies);
    reveal(place);
    reveal(passed);
    assert(passed(limits, replies, i));
    assert(i >= 12);
    assert(passed(limits, replies, 8));
    assert(passed(limits, replies, 9));
    assert(passed(limits, replies, 10));
    assert(passed(limits, replies, 11));
}

/// Every descendant of the container process is born into the cgroup: the container process
/// has assigned itself to it, by its own number, before it forks.
#[verifier::rlimit(40)]
pub proof fn law_descendants_born_into_cgroup(
    limits: CgroupLimits,
    replies: Seq<ReplyView>,
    i: int,
)
    requires
        possible(limits, replies),
        12 < i < replies.len(),
        run(limits, replies).operations[i] == OperationView::Fork,
    ensures
        ({
            let operations = run(limits, replies).operations;
            &&& replies[12] is Child
            &&& i > 14
            &&& operations[13] == OperationView::GetPid
            &&& replies[13] is Pid
            &&& operations[14] == OperationView::WriteFile {
                path: CGROUP_PATH@ + "/cgroup.procs"@,
                contents: signed_decimal(replies[13]->Pid_0 as int),
            }
            &&& replies[14] is Done
        }),
{
    lemma_course(limits, replies);
    reveal(place);
    reveal(passed);
    assert(passed(limits, replies, i));
    assert(i == 17);
    assert(passed(limits, replies, 12));
    assert(passed(limits, replies, 13));
    assert(passed(limits, replies, 14));
}

/// No mount reaches the host: before any mount the process has entered new PID, mount and IPC
/// namespaces, and its first mount, which cuts the propagation of all others, has succeeded
/// before the next.
#[verifier::rlimit(40)]
pub proof fn law_mounts_stay_private(limits: CgroupLimits, replies: Seq<ReplyView>, i: int)
    requires
        possible(limits, replies),
        0 <= i < replies.len(),
        run(limits, replies).operations[i] is Mount,
    ensures
        ({
            let operations = run(limits, replies).operations;
            &&& i >= 16
            &&& operations[15] == OperationView::Unshare {
                namespaces: Namespaces { pid: true, mount: true, ipc: true },
            }
            &&& replies[15] is Done
            &&& operations[16] == OperationView::Mount {
                source: None,
                target: "/"@,
                fstype: None,
                flags: MountFlags { private: true, recursive: true, ..MountFlags::empty() },
            }
            &&& i > 16 ==> replies[16] is Done
        }),
{
    lemma_course(limits, replies);
    reveal(place);
    reveal(passed);
    assert(passed(limits, replies, i));
    assert(i >= 16);
    assert(passed(limits, replies, 12));
    assert(passed(limits, replies, 15));
    assert(passed(limits, replies, 16));
}

/// The stages of the move into the root file system, in order.
pub open spec fn pivot_order() -> Seq<PivotStage> {
    seq![
        PivotStage::BindRootfs,
        PivotStage::CreatePutOld,
        PivotStage::EnterRootfs,
        PivotStage::Pivot,
        PivotStage::EnterNewRoot,
        PivotStage::DetachOldRoot,
        PivotStage::RemoveOldRoot,
        PivotStage::RemountReadOnly,
    ]
}

/// The procfs is mounted into the new root: whatever is mounted on `/proc`, the process has
/// gone through the whole move into the root file system before, in order and without a
/// failure. The old root is then gone and the new one is read-only, and it became so only
/// after the old root's mount point had been removed.
pub proof fn law_procfs_mounted_in_new_root(
    limits: CgroupLimits,
    replies: Seq<ReplyView>,
    i: int,
)
    requires
        possible(limits, replies),
        0 <= i < replies.len(),
        run(limits, replies).operations[i] is Mount,
        run(limits, replies).operations[i]->Mount_target == "/proc"@,
    ensures
        ({
            let operations = run(limits, replies).operations;
            &&& i == 26
            &&& forall|k: int|
                0 <= k < 8 ==> {
                    &&& (#[trigger] operations[18 + k]) == pivot_order()[k].asks()
                    &&& replies[18 + k] is Done
                }
        }),
{
    lemma_course(limits, replies);
    assert(passed(limits, replies, i));
    lemma_only_procfs_on_proc(limits, replies, i);
    assert forall|k: int| 0 <= k < 8 implies {
        &&& (#[trigger] run(limits, replies).operations[18 + k]) == pivot_order()[k].asks()
        &&& replies[18 + k] is Done
    } by {
        lemma_pivot_place(limits, replies, k);
    }
}

#[verifier::rlimit(40)]
proof fn lemma_only_procfs_on_proc(limits: CgroupLimits, replies: Seq<ReplyView>, i: int)
    requires
        passed(limits, replies, i),
        place(replies, i).asks(limits)->0 is Mount,
        (place(replies, i).asks(limits)->0)->Mount_target == "/proc"@,
    ensures
        i == 26,
{
    reveal_strlit("/proc");
    reveal_strlit("/");
    reveal_strlit("/workspace/rootfs");
    reveal(passed);
    assert("/proc"@.len() == 5 && "/"@.len() == 1 && ROOTFS_PATH@.len() == 17);
}

#[verifier::rlimit(40)]
proof fn lemma_pivot_place(limits: CgroupLimits, replies: Seq<ReplyView>, k: int)
    requires
        possible(limits, replies),
        replies.len() > 26,
        0 <= k < 8,
    ensures
        place(replies, 18 + k) == Process::Payload(PayloadStage::Pivot(pivot_order()[k])),
        replies[18 + k] is Done,
{
    lemma_course(limits, replies);
    reveal(place);
    reveal(passed);
    assert(passed(limits, replies, 18 + k));
    assert(passed(limits, replies, 19 + k));
}

/// Whether a process asks to become the entrypoint.
pub open spec fn about_to_exec(limits: CgroupLimits, process: Process) -> bool {
    process.asks(limits) matches Some(operation) && operation is Exec
}

/// The entrypoint runs behind every layer. Just before a process asks to become it, the process
/// has installed the filter of the fifty-six allowed calls, whose verdict on every system call
/// is the one that the call is due. Before that it has joined the cgroup, entered its
/// namespaces, cut the propagation of its mounts, gone through the whole move into the
/// read-only root, mounted procfs there, and received the whole identity; and none of this
/// failed.
pub proof fn law_entrypoint_is_confined(limits: CgroupLimits, replies: Seq<ReplyView>)
    requires
        possible(limits, replies),
        about_to_exec(limits, run(limits, replies).process),
    ensures
        ({
            let operations = run(limits, replies).operations;
            let program = operations.last()->program;
            &&& replies.len() == 30
            &&& operations.last() == OperationView::InstallFilter { program }
            &&& replies.last() is Done
            &&& allowed_calls().len() == 56
            &&& forall|acc: u32, call: Syscall| #[trigger]
                evaluate(program, 0, acc, call) == Some(verdict(allowed_calls(), call))
            &&& operations[14] == OperationView::WriteFile {
                path: CGROUP_PATH@ + "/cgroup.procs"@,
                contents: signed_decimal(replies[13]->Pid_0 as int),
            }
            &&& replies[14] is Done
            &&& operations[15] == OperationView::Unshare {
                namespaces: Namespaces { pid: true, mount: true, ipc: true },
            }
            &&& replies[15] is Done
            &&& operations[16] == OperationView::Mount {
                source: None,
                target: "/"@,
                fstype: None,
                flags: MountFlags { private: true, recursive: true, ..MountFlags::empty() },
            }
            &&& replies[16] is Done
            &&& forall|k: int|
                0 <= k < 8 ==> {
                    &&& (#[trigger] operations[18 + k]) == pivot_order()[k].asks()
                    &&& replies[18 + k] is Done
                }
            &&& operations[26] == OperationView::Mount {
                source: Some("proc"@),
                target: "/proc"@,
                fstype: Some("proc"@),
                flags: MountFlags {
                    no_suid: true,
                    no_dev: true,
                    no_exec: true,
                    ..MountFlags::empty()
                },
            }
            &&& replies[26] is Done
            &&& operations[28] is ReadIdentity
            &&& replies[28] is Received
            &&& replies[28]->Received_count == IDENTITY_LEN
        }),
{
    let operations = run(limits, replies).operations;
    let program = operations.last()->program;
    lemma_course(limits, replies);
    lemma_about_to_exec(limits, replies);
    law_allowed_calls();
    assert forall|acc: u32, call: Syscall| #[trigger]
        evaluate(program, 0, acc, call) == Some(verdict(allowed_calls(), call)) by {
        law_filter_gives_verdict(allowed_calls(), acc, call);
    }
    assert forall|k: int| 0 <= k < 8 implies {
        &&& (#[trigger] operations[18 + k]) == pivot_order()[k].asks()
        &&& replies[18 + k] is Done
    } by {
        lemma_pivot_place(limits, replies, k);
    }
    lemma_namespaces_passed(limits, replies);
    lemma_payload_passed(limits, replies);
}

proof fn lemma_about_to_exec(limits: CgroupLimits, replies: Seq<ReplyView>)
    requires
        possible(limits, replies),
        about_to_exec(limits, run(limits, replies).process),
    ensures
        run(limits, replies).process == Process::Payload(PayloadStage::Exec),
        replies.len() == 30,
        replies[12] is Child,
        replies[17] is Child,
        replies[29] is Done,
        place(replies, 29) == Process::Payload(PayloadStage::InstallFilter),
{
    lemma_course(limits, replies);
    assert(run(limits, replies).process == Process::Payload(PayloadStage::Exec));
    assert(position(run(limits, replies).process) == 30);
    reveal(place);
    reveal(passed);
    assert(passed(limits, replies, 12));
    assert(passed(limits, replies, 17));
    assert(passed(limits, replies, 29));
}

proof fn lemma_namespaces_passed(limits: CgroupLimits, replies: Seq<ReplyView>)
    requires
        possible(limits, replies),
        replies.len() == 30,
    ensures
        place(replies, 14) == Process::Namespaces(
            NamespacesStage::JoinCgroup { pid: replies[13]->Pid_0 },
        ),
        replies[14] is Done,
        place(replies, 15) == Process::Namespaces(NamespacesStage::Unshare),
        replies[15] is Done,
        place(replies, 16) == Process::Namespaces(NamespacesStage::MakePrivate),
        replies[16] is Done,
{
    lemma_course(limits, replies);
    reveal(place);
    reveal(passed);
    assert(passed(limits, replies, 14));
    assert(passed(limits, replies, 15));
    assert(passed(limits, replies, 16));
}

proof fn lemma_payload_passed(limits: CgroupLimits, replies: Seq<ReplyView>)
    requires
        possible(limits, replies),
        replies.len() == 30,
    ensures
        place(replies, 26) == Process::Payload(PayloadStage::MountProc),
        replies[26] is Done,
        place(replies, 28) == Process::Payload(
            PayloadStage::ReadIdentity { fd: read_i32(replies[27]->Value_0)->Ok_0 },
        ),
        replies[28] is Received,
        replies[28]->Received_count == IDENTITY_LEN,
{
    lemma_course(limits, replies);
    reveal(place);
    reveal(passed);
    assert(passed(limits, replies, 12));
    assert(passed(limits, replies, 17));
    assert(passed(limits, replies, 26));
    assert(passed(limits, replies, 28));
}

/// The process that owns the cgroup is the manager, from the time when the cgroup is set up to
/// the time when it comes to be removed; no process that the manager forked ever owns it.
#[verifier::rlimit(40)]
pub proof fn law_cgroup_owner(limits: CgroupLimits, replies: Seq<ReplyView>)
    requires
        possible(limits, replies),
    ensures
        run(limits, replies).process.owner() <==> {
            ||| replies.len() == 12 && !(run(limits, replies).process is Panicked)
            ||| replies.len() == 13 && replies[12] is Parent
        },
        replies.len() > 12 && replies[12] is Child ==> !run(limits, replies).process.owner(),
{
    lemma_course(limits, replies);
    reveal(place);
    reveal(passed);
    if replies.len() > 0 {
        assert(passed(limits, replies, replies.len() - 1));
    }
    if replies.len() > 12 {
        assert(passed(limits, replies, 12));
    }
}

/// The manager removes the cgroup, once and last: where it has tried to fork and has ended,
/// its last operation was the removal, and none before it was. It does not panic after that
/// fork.
#[verifier::rlimit(40)]
pub proof fn law_manager_removes_cgroup(limits: CgroupLimits, replies: Seq<ReplyView>)
    requires
        possible(limits, replies),
        replies.len() > 12,
        !(replies[12] is Child),
        run(limits, replies).process is Exited || run(limits, replies).process is Panicked,
    ensures
        run(limits, replies).process is Exited,
        run(limits, replies).operations.last() == (OperationView::RemoveDir {
            path: "/sys/fs/cgroup/ferrovault"@,
        }),
        forall|i: int|
            0 <= i < replies.len() - 1 ==> #[trigger] run(limits, replies).operations[i]
                != (OperationView::RemoveDir { path: "/sys/fs/cgroup/ferrovault"@ }),
{
    lemma_course(limits, replies);
    reveal(place);
    reveal(passed);
    assert(passed(limits, replies, 12));
    assert(passed(limits, replies, replies.len() - 1));
    assert forall|i: int| 0 <= i < replies.len() - 1 implies #[trigger] run(
        limits,
        replies,
    ).operations[i] != (OperationView::RemoveDir { path: "/sys/fs/cgroup/ferrovault"@ }) by {
        assert(passed(limits, replies, i));
        assert(passed(limits, replies, 13));
    }
}

/// Only the manager removes the cgroup: a process that it forked never asks for that, and
/// never goes on as the manager.
#[verifier::rlimit(40)]
pub proof fn law_children_leave_cgroup_alone(
    limits: CgroupLimits,
    replies: Seq<ReplyView>,
    i: int,
)
    requires
        possible(limits, replies),
        replies.len() > 12,
        replies[12] is Child,
        0 <= i < replies.len(),
    ensures
        run(limits, replies).operations[i] != (OperationView::RemoveDir {
            path: "/sys/fs/cgroup/ferrovault"@,
        }),
        !(run(limits, replies).process is Manager),
{
    lemma_course(limits, replies);
    reveal_strlit("/.oldroot");
    reveal_strlit("/sys/fs/cgroup/ferrovault");
    reveal(place);
    reveal(passed);
    assert("/.oldroot"@.len() == 9 && CGROUP_PATH@.len() == 25);
    assert(passed(limits, replies, i));
    assert(passed(limits, replies, replies.len() - 1));
}

/// The container reads the identity from the file that the manager sealed: where the
/// environment still holds what the manager left there, the descriptor is the same.
#[verifier::rlimit(40)]
pub proof fn law_identity_read_from_sealed_file(limits: CgroupLimits, replies: Seq<ReplyView>)
    requires
        possible(limits, replies),
        replies.len() > 28,
        replies[27] == ReplyView::Value(
            run(limits, replies).operations[6]->value,
        ),
    ensures
        run(limits, replies).operations[28] == (OperationView::ReadIdentity {
            fd: replies[2]->Descriptor_0,
        }),
{
    lemma_course(limits, replies);
    let fd = replies[2]->Descriptor_0;
    law_descriptor_round_trip(fd);
    reveal(place);
    reveal(passed);
    assert(passed(limits, replies, 6));
    assert(passed(limits, replies, 12));
    assert(passed(limits, replies, 17));
    assert(passed(limits, replies, 28));
}

/// How a process can end. It exits with status 0 where it is the manager and its fork
/// succeeded, or where it is the container process and its child could be waited for. It
/// exits with status 1 where the manager's fork failed, or where it is one of the container's
/// processes and the last operation failed. It panics after a failure, on a part of an identity,
/// or on a descriptor number that cannot be read.
#[verifier::rlimit(40)]
pub proof fn law_exit_status(limits: CgroupLimits, replies: Seq<ReplyView>)
    requires
        possible(limits, replies),
        run(limits, replies).process is Exited || run(limits, replies).process is Panicked,
    ensures
        match run(limits, replies).process {
            Process::Exited(status) => {
                ||| status == 0 && replies.len() == 15 && replies[12] is Parent
                ||| status == 0 && replies.len() == 19 && replies[17] is Parent
                    && replies.last() is Status
                ||| status == 1 && replies.len() == 14 && replies[12] is Failed
                ||| status == 1 && replies.len() > 13 && replies[12] is Child
                    && replies.last() is Failed
            },
            _ => {
                ||| replies.last() is Failed
                ||| replies.len() == 4 && replies.last()->Written_count != IDENTITY_LEN
                ||| replies.len() == 28 && read_i32(replies.last()->Value_0) is Err
                ||| replies.len() == 29 && replies.last()->Received_count != IDENTITY_LEN
            },
        },
{
    lemma_course(limits, replies);
    reveal(place);
    reveal(passed);
    assert(replies.len() > 0);
    assert(passed(limits, replies, replies.len() - 1));
    if replies.len() > 12 {
        assert(passed(limits, replies, 12));
    }
    if replies.len() > 17 {
        assert(passed(limits, replies, 17));
    }
}

/// What is printed up to the manager's fork.
pub open spec fn opening(limits: CgroupLimits, replies: Seq<ReplyView>) -> Seq<LineView> {
    let controllers = match replies[7] {
        ReplyView::Failed(failure) => seq![
            err("Manager: cgroup.subtree_control (best-effort): "@ + failure.display),
        ],
        _ => seq![],
    };
    seq![
        out("=== FerroVault Manager Starting ==="@),
        out(
            "Manager: Identity provisioned — 32 bytes sealed in memfd (fd="@ + signed_decimal(
                replies[2]->Descriptor_0 as int,
            ) + ")."@,
        ),
    ] + controllers + seq![
        match replies[9] {
            ReplyView::Failed(failure) => err(
                "Manager:   memory.max (skipped): "@ + failure.display,
            ),
            _ => out("Manager:   memory.max = "@ + decimal(limits.memory_max_bytes as nat)),
        },
        match replies[10] {
            ReplyView::Failed(failure) => err("Manager:   cpu.max (skipped): "@ + failure.display),
            _ => out(
                "Manager:   cpu.max = "@ + (decimal(limits.cpu_quota_us as nat) + " "@ + decimal(
                    limits.cpu_period_us as nat,
                )),
            ),
        },
        match replies[11] {
            ReplyView::Failed(failure) => err("Manager:   pids.max (skipped): "@ + failure.display),
            _ => out("Manager:   pids.max = "@ + decimal(limits.pids_max as nat)),
        },
        out("Manager: Cgroup ready at /sys/fs/cgroup/ferrovault."@),
    ]
}

/// What the container's processes print after reply `n`, on the way to the entrypoint, and what
/// the manager prints before its fork.
spec fn said(limits: CgroupLimits, replies: Seq<ReplyView>, n: int) -> Seq<LineView> {
    let writes = limits.writes();
    if n == 5 {
        seq![out(provisioned(replies[2]->Descriptor_0))]
    } else if n == 7 {
        match replies[7] {
            ReplyView::Failed(failure) => seq![
                err("Manager: cgroup.subtree_control (best-effort): "@ + failure.display),
            ],
            _ => seq![],
        }
    } else if n == 9 {
        seq![limit_line(writes[0].0, writes[0].1, replies[9])]
    } else if n == 10 {
        seq![limit_line(writes[1].0, writes[1].1, replies[10])]
    } else if n == 11 {
        seq![limit_line(writes[2].0, writes[2].1, replies[11]), out(cgroup_ready())]
    } else if n == 14 {
        seq![out(assigned(replies[13]->Pid_0))]
    } else if n == 16 {
        seq![out("Container: Namespaces created. Forking into new PID namespace..."@)]
    } else if n == 17 {
        seq![out(entered())]
    } else if n == 25 {
        seq![out(pivoted())]
    } else if n == 26 {
        seq![out("Container: /proc mounted. Only this namespace's processes are visible."@)]
    } else if n == 28 {
        seq![out(received(replies[28]->buffer@))]
    } else if n == 29 {
        seq![out(confined(allowed_calls().len()))]
    } else {
        seq![]
    }
}

#[verifier::rlimit(40)]
proof fn lemma_said(limits: CgroupLimits, replies: Seq<ReplyView>, n: int)
    requires
        possible(limits, replies),
        0 <= n < replies.len(),
        n < 12 || replies[12] is Child && replies[17] is Child,
        alive(place(replies, n).after(limits, replies[n]).process),
    ensures
        run(limits, replies.take(n + 1)).lines == run(limits, replies.take(n)).lines + said(
            limits,
            replies,
            n,
        ),
{
    lemma_lines(limits, replies, n);
    lemma_course(limits, replies);
    assert(passed(limits, replies, n));
    assert(place(replies, n).after(limits, replies[n]).lines == said(limits, replies, n)) by {
        reveal(place);
        reveal(passed);
    }
}

proof fn lemma_not_ended(limits: CgroupLimits, replies: Seq<ReplyView>, n: int)
    requires
        possible(limits, replies),
        0 <= n < replies.len(),
        n + 1 < replies.len() || alive(run(limits, replies).process),
    ensures
        alive(place(replies, n).after(limits, replies[n]).process),
{
    lemma_course(limits, replies);
    reveal(passed);
    assert(passed(limits, replies, n));
    if n + 1 < replies.len() {
        assert(passed(limits, replies, n + 1));
    }
}

/// What is printed after the first `n` replies.
spec fn told(limits: CgroupLimits, replies: Seq<ReplyView>, n: int) -> Seq<LineView>
    decreases n,
{
    if n <= 0 {
        seq![out(starting())]
    } else {
        told(limits, replies, n - 1) + said(limits, replies, n - 1)
    }
}

proof fn lemma_told(limits: CgroupLimits, replies: Seq<ReplyView>, n: int)
    requires
        possible(limits, replies),
        0 <= n <= replies.len(),
        n < replies.len() || alive(run(limits, replies).process),
        n <= 12 || replies[12] is Child && replies[17] is Child,
    ensures
        run(limits, replies.take(n)).lines == told(limits, replies, n),
    decreases n,
{
    if n == 0 {
        assert(replies.take(0) =~= seq![]);
    } else {
        lemma_told(limits, replies, n - 1);
        lemma_not_ended(limits, replies, n - 1);
        lemma_said(limits, replies, n - 1);
    }
}

proof fn lemma_opening(limits: CgroupLimits, replies: Seq<ReplyView>)
    ensures
        told(limits, replies, 12) == opening(limits, replies),
{
    lemma_reports();
    lemma_limit_reports();
    reveal_with_fuel(told, 13);
    assert(told(limits, replies, 5) =~= seq![out(starting())]);
    assert(told(limits, replies, 7) =~= seq![
        out(starting()),
        out(provisioned(replies[2]->Descriptor_0)),
    ]);
    assert(told(limits, replies, 12) =~= opening(limits, replies));
}

proof fn lemma_ending(limits: CgroupLimits, replies: Seq<ReplyView>)
    ensures
        told(limits, replies, 30) == opening(limits, replies) + seq![
            out(assigned(replies[13]->Pid_0)),
            out("Container: Namespaces created. Forking into new PID namespace..."@),
            out(entered()),
            out(pivoted()),
            out("Container: /proc mounted. Only this namespace's processes are visible."@),
            out(received(replies[28]->buffer@)),
            out(confined(allowed_calls().len())),
        ],
{
    lemma_opening(limits, replies);
    let first = opening(limits, replies);
    reveal_with_fuel(told, 6);
    assert(told(limits, replies, 14) =~= first);
    assert(told(limits, replies, 18) =~= first + seq![
        out(assigned(replies[13]->Pid_0)),
        out("Container: Namespaces created. Forking into new PID namespace..."@),
        out(entered()),
    ]);
    assert(told(limits, replies, 22) =~= told(limits, replies, 18));
    assert(told(limits, replies, 25) =~= told(limits, replies, 22));
}

/// What a manager prints whose fork succeeded and that has removed the cgroup.
#[verifier::rlimit(40)]
pub proof fn law_manager_transcript(limits: CgroupLimits, replies: Seq<ReplyView>)
    requires
        possible(limits, replies),
        replies.len() == 15,
        replies[12] is Parent,
    ensures
        run(limits, replies).lines == opening(limits, replies) + seq![
            out(
                "Manager: Spawned container process PID "@ + signed_decimal(
                    replies[12]->child as int,
                ),
            ),
            match replies[13] {
                ReplyView::Failed(failure) => err("Manager: waitpid error: "@ + failure.display),
                _ => out("Manager: Container exited with status: "@ + replies[13]->Status_0),
            },
            match replies[14] {
                ReplyView::Failed(failure) => err("Manager: cgroup cleanup: "@ + failure.display),
                _ => out("Manager: Cgroup removed."@),
            },
        ],
{
    lemma_course(limits, replies);
    lemma_told(limits, replies, 12);
    lemma_opening(limits, replies);
    lemma_lines(limits, replies, 12);
    lemma_lines(limits, replies, 13);
    lemma_lines(limits, replies, 14);
    assert(replies.take(15) =~= replies);
    reveal(place);
    reveal(passed);
    assert(passed(limits, replies, 12));
    assert(passed(limits, replies, 13));
    assert(passed(limits, replies, 14));
}

/// What has been printed when the entrypoint is about to run: a line for each layer that is in
/// place, the identity that was read in hexadecimal among them.
pub proof fn law_container_transcript(limits: CgroupLimits, replies: Seq<ReplyView>)
    requires
        possible(limits, replies),
        about_to_exec(limits, run(limits, replies).process),
    ensures
        run(limits, replies).lines == opening(limits, replies) + seq![
            out(
                "Container: Assigned to cgroup (PID "@ + signed_decimal(replies[13]->Pid_0 as int)
                    + ")."@,
            ),
            out("Container: Namespaces created. Forking into new PID namespace..."@),
            out("Container: Entered new PID namespace. I am PID 1."@),
            out(
                "Container: pivoted into isolated rootfs at /workspace/rootfs (now read-only)."@,
            ),
            out("Container: /proc mounted. Only this namespace's processes are visible."@),
            out("Container: Identity received — 0x"@ + hex(replies[28]->buffer@)),
            out(
                "Container: seccomp filter installed — 56 syscalls allowed, everything else kills the process."@,
            ),
        ],
{
    lemma_about_to_exec(limits, replies);
    assert(replies.take(30) =~= replies);
    lemma_told(limits, replies, 30);
    lemma_ending(limits, replies);
    law_confined_line();
    lemma_reports();
}

} // verus!
