//! What holds of every course that the program can take, whatever the system answers.

use crate::cgroup::CgroupStage;
use crate::identity::IdentityStage;
use crate::manager::ManagerStage;
use crate::namespaces::NamespacesStage;
use crate::payload::PayloadStage;
use crate::limits::CgroupLimits;
use crate::process::{initial, Process};
use crate::rootfs::PivotStage;
use crate::system::{LineView, OperationView, ReplyView};
use crate::text::read_i32;
use vstd::prelude::*;

verus! {

/// What has become of a process: where it stands, which of its operations the system has
/// answered, and what was printed. What its ancestors did before the forks that led to it
/// counts as done by it.
pub struct Run {
    pub process: Process,
    pub operations: Seq<OperationView>,
    pub lines: Seq<LineView>,
}

/// The run in which the system gives `replies`.
pub open spec fn run(limits: CgroupLimits, replies: Seq<ReplyView>) -> Run
    decreases replies.len(),
{
    if replies.len() == 0 {
        Run { process: initial().process, operations: seq![], lines: initial().lines }
    } else {
        let before = run(limits, replies.drop_last());
        let transition = before.process.after(limits, replies.last());
        Run {
            process: transition.process,
            operations: before.operations.push(before.process.asks(limits)->0),
            lines: before.lines + transition.lines,
        }
    }
}

/// Whether the system can give `replies`: each is of the kind that the process waits for.
pub open spec fn possible(limits: CgroupLimits, replies: Seq<ReplyView>) -> bool
    decreases replies.len(),
{
    replies.len() > 0 ==> {
        &&& possible(limits, replies.drop_last())
        &&& run(limits, replies.drop_last()).process.awaits(limits, replies.last())
    }
}

/// Whether the process has not ended.
pub open spec fn alive(process: Process) -> bool {
    process is Manager || process is Namespaces || process is Payload
}

/// Where a process that has not ended stands after `n` of `replies`.
#[verifier::opaque]
pub open spec fn place(replies: Seq<ReplyView>, n: int) -> Process {
    let identity = replies[1]->Identity_0;
    let fd = replies[2]->Descriptor_0;
    if n == 0 {
        Process::Manager(ManagerStage::Identity(IdentityStage::OpenPool))
    } else if n == 1 {
        Process::Manager(ManagerStage::Identity(IdentityStage::Draw))
    } else if n == 2 {
        Process::Manager(ManagerStage::Identity(IdentityStage::CreateFile { identity }))
    } else if n == 3 {
        Process::Manager(ManagerStage::Identity(IdentityStage::Write { identity, fd }))
    } else if n == 4 {
        Process::Manager(ManagerStage::Identity(IdentityStage::Rewind { fd }))
    } else if n == 5 {
        Process::Manager(ManagerStage::Identity(IdentityStage::Seal { fd }))
    } else if n == 6 {
        Process::Manager(ManagerStage::Publish { fd })
    } else if n == 7 {
        Process::Manager(ManagerStage::Cgroup(CgroupStage::EnableControllers))
    } else if n == 8 {
        Process::Manager(ManagerStage::Cgroup(CgroupStage::CreateDirectory))
    } else if n == 9 {
        Process::Manager(ManagerStage::Cgroup(CgroupStage::LimitMemory))
    } else if n == 10 {
        Process::Manager(ManagerStage::Cgroup(CgroupStage::LimitCpu))
    } else if n == 11 {
        Process::Manager(ManagerStage::Cgroup(CgroupStage::LimitPids))
    } else if n == 12 {
        Process::Manager(ManagerStage::Fork)
    } else if replies[12] is Child {
        container_place(replies, n)
    } else if n == 13 && replies[12] is Parent {
        Process::Manager(ManagerStage::Wait { child: replies[12]->child })
    } else {
        Process::Manager(ManagerStage::Cleanup { status: if replies[12] is Parent { 0 } else { 1 } })
    }
}

/// Where a process that the manager forked, and that has not ended, stands after `n` of
/// `replies`.
pub open spec fn container_place(replies: Seq<ReplyView>, n: int) -> Process {
    if n == 13 {
        Process::Namespaces(NamespacesStage::AskPid)
    } else if n == 14 {
        Process::Namespaces(NamespacesStage::JoinCgroup { pid: replies[13]->Pid_0 })
    } else if n == 15 {
        Process::Namespaces(NamespacesStage::Unshare)
    } else if n == 16 {
        Process::Namespaces(NamespacesStage::MakePrivate)
    } else if n == 17 {
        Process::Namespaces(NamespacesStage::Fork)
    } else if replies[17] is Parent {
        Process::Namespaces(NamespacesStage::Wait { child: replies[17]->child })
    } else if n == 18 {
        Process::Payload(PayloadStage::Pivot(PivotStage::BindRootfs))
    } else if n == 19 {
        Process::Payload(PayloadStage::Pivot(PivotStage::CreatePutOld))
    } else if n == 20 {
        Process::Payload(PayloadStage::Pivot(PivotStage::EnterRootfs))
    } else if n == 21 {
        Process::Payload(PayloadStage::Pivot(PivotStage::Pivot))
    } else if n == 22 {
        Process::Payload(PayloadStage::Pivot(PivotStage::EnterNewRoot))
    } else if n == 23 {
        Process::Payload(PayloadStage::Pivot(PivotStage::DetachOldRoot))
    } else if n == 24 {
        Process::Payload(PayloadStage::Pivot(PivotStage::RemoveOldRoot))
    } else if n == 25 {
        Process::Payload(PayloadStage::Pivot(PivotStage::RemountReadOnly))
    } else if n == 26 {
        Process::Payload(PayloadStage::MountProc)
    } else if n == 27 {
        Process::Payload(PayloadStage::FindDescriptor)
    } else if n == 28 {
        Process::Payload(PayloadStage::ReadIdentity { fd: read_i32(replies[27]->Value_0)->Ok_0 })
    } else if n == 29 {
        Process::Payload(PayloadStage::InstallFilter)
    } else {
        Process::Payload(PayloadStage::Exec)
    }
}

/// After how many replies a process that has not ended stands where it stands.
pub open spec fn position(process: Process) -> nat {
    match process {
        Process::Manager(stage) => match stage {
            ManagerStage::Identity(stage) => match stage {
                IdentityStage::OpenPool => 0,
                IdentityStage::Draw => 1,
                IdentityStage::CreateFile { .. } => 2,
                IdentityStage::Write { .. } => 3,
                IdentityStage::Rewind { .. } => 4,
                IdentityStage::Seal { .. } => 5,
            },
            ManagerStage::Publish { .. } => 6,
            ManagerStage::Cgroup(stage) => match stage {
                CgroupStage::EnableControllers => 7,
                CgroupStage::CreateDirectory => 8,
                CgroupStage::LimitMemory => 9,
                CgroupStage::LimitCpu => 10,
                CgroupStage::LimitPids => 11,
            },
            ManagerStage::Fork => 12,
            ManagerStage::Wait { .. } => 13,
            ManagerStage::Cleanup { status } => if status == 0 {
                14
            } else {
                13
            },
        },
        Process::Namespaces(stage) => match stage {
            NamespacesStage::AskPid => 13,
            NamespacesStage::JoinCgroup { .. } => 14,
            NamespacesStage::Unshare => 15,
            NamespacesStage::MakePrivate => 16,
            NamespacesStage::Fork => 17,
            NamespacesStage::Wait { .. } => 18,
        },
        Process::Payload(stage) => match stage {
            PayloadStage::Pivot(stage) => match stage {
                PivotStage::BindRootfs => 18,
                PivotStage::CreatePutOld => 19,
                PivotStage::EnterRootfs => 20,
                PivotStage::Pivot => 21,
                PivotStage::EnterNewRoot => 22,
                PivotStage::DetachOldRoot => 23,
                PivotStage::RemoveOldRoot => 24,
                PivotStage::RemountReadOnly => 25,
            },
            PayloadStage::MountProc => 26,
            PayloadStage::FindDescriptor => 27,
            PayloadStage::ReadIdentity { .. } => 28,
            PayloadStage::InstallFilter => 29,
            PayloadStage::Exec => 30,
        },
        _ => 31,
    }
}

#[verifier::rlimit(40)]
proof fn lemma_step(limits: CgroupLimits, replies: Seq<ReplyView>, n: int)
    requires
        0 <= n < replies.len(),
        position(place(replies, n)) == n,
        alive(place(replies, n)),
        place(replies, n).awaits(limits, replies[n]),
    ensures
        ({
            let next = place(replies, n).after(limits, replies[n]).process;
            alive(next) ==> next == place(replies, n + 1) && position(next) == n + 1
        }),
{
    reveal(place);
}

proof fn lemma_place_depends_on_past(replies: Seq<ReplyView>, n: int)
    requires
        0 <= n < replies.len(),
    ensures
        place(replies.drop_last(), n) == place(replies, n),
{
    reveal(place);
}

proof fn lemma_first_place(replies: Seq<ReplyView>)
    ensures
        place(replies, 0) == initial().process,
        position(initial().process) == 0,
{
    reveal(place);
}

/// Whether the run went through its place after `i` replies: the process stood there, was
/// answered, and did not end before the last of `replies`.
#[verifier::opaque]
pub open spec fn passed(limits: CgroupLimits, replies: Seq<ReplyView>, i: int) -> bool {
    &&& alive(place(replies, i))
    &&& position(place(replies, i)) == i
    &&& place(replies, i).awaits(limits, replies[i])
    &&& i + 1 < replies.len() ==> place(replies, i).after(limits, replies[i]).process == place(
        replies,
        i + 1,
    )
}

proof fn lemma_passed_before(limits: CgroupLimits, replies: Seq<ReplyView>, i: int)
    requires
        0 <= i < replies.len() - 1,
        passed(limits, replies.drop_last(), i),
        i == replies.len() - 2 ==> place(replies, i + 1) == place(replies, i).after(
            limits,
            replies[i],
        ).process,
    ensures
        passed(limits, replies, i),
{
    reveal(passed);
    lemma_place_depends_on_past(replies, i);
    lemma_place_depends_on_past(replies, i + 1);
    assert(replies.drop_last()[i] == replies[i]);
}

/// What [`lemma_course`] says of `now`, the run in which the system gives `replies`.
pub open spec fn on_course(limits: CgroupLimits, replies: Seq<ReplyView>, now: Run) -> bool {
    &&& now.operations.len() == replies.len()
    &&& forall|i: int|
        0 <= i < replies.len() ==> (#[trigger] now.operations[i]) == place(replies, i).asks(
            limits,
        )->0
    &&& forall|i: int| 0 <= i < replies.len() ==> #[trigger] passed(limits, replies, i)
    &&& alive(now.process) ==> now.process == place(replies, replies.len() as int)
        && position(now.process) == replies.len()
    &&& replies.len() > 0 ==> now.process == place(replies, replies.len() - 1).after(
        limits,
        replies.last(),
    ).process
}

proof fn lemma_last_passed(limits: CgroupLimits, replies: Seq<ReplyView>)
    requires
        replies.len() > 0,
        place(replies, replies.len() - 1).awaits(limits, replies.last()),
        position(place(replies, replies.len() - 1)) == replies.len() - 1,
    ensures
        passed(limits, replies, replies.len() - 1),
{
    reveal(passed);
}

proof fn lemma_awaiting_is_alive(limits: CgroupLimits, process: Process, reply: ReplyView)
    requires
        process.awaits(limits, reply),
    ensures
        alive(process),
{
}

/// The course of every run: its operations are those of the places that it passed through, and
/// a process that has not ended stands at the place for the number of its replies.
pub proof fn lemma_course(limits: CgroupLimits, replies: Seq<ReplyView>)
    requires
        possible(limits, replies),
    ensures
        on_course(limits, replies, run(limits, replies)),
    decreases replies.len(),
{
    lemma_first_place(replies);
    if replies.len() > 0 {
        let earlier = replies.drop_last();
        let n = replies.len() - 1;
        let before = run(limits, earlier);
        let now = run(limits, replies);
        lemma_course(limits, earlier);
        lemma_awaiting_is_alive(limits, before.process, replies.last());
        lemma_place_depends_on_past(replies, n);
        lemma_step(limits, replies, n);
        lemma_last_passed(limits, replies);
        assert forall|i: int| 0 <= i < replies.len() implies (#[trigger] now.operations[i])
            == place(replies, i).asks(limits)->0 by {
            if i < n {
                assert(before.operations[i] == now.operations[i]);
                lemma_place_depends_on_past(replies, i);
            }
        }
        assert forall|i: int| 0 <= i < replies.len() implies #[trigger] passed(
            limits,
            replies,
            i,
        ) by {
            if i < n {
                assert(passed(limits, earlier, i));
                if i == n - 1 {
                    lemma_place_depends_on_past(replies, i);
                }
                lemma_passed_before(limits, replies, i);
            }
        }
    }
}

proof fn lemma_possible_prefix(limits: CgroupLimits, replies: Seq<ReplyView>, n: int)
    requires
        possible(limits, replies),
        0 <= n <= replies.len(),
    ensures
        possible(limits, replies.take(n)),
    decreases replies.len(),
{
    if n == replies.len() {
        assert(replies.take(n) =~= replies);
    } else {
        lemma_possible_prefix(limits, replies.drop_last(), n);
        assert(replies.drop_last().take(n) =~= replies.take(n));
    }
}

/// What is printed after each reply is what the place of the process says.
pub proof fn lemma_lines(limits: CgroupLimits, replies: Seq<ReplyView>, n: int)
    requires
        possible(limits, replies),
        0 <= n < replies.len(),
    ensures
        run(limits, replies.take(n + 1)).lines == run(limits, replies.take(n)).lines + place(
            replies,
            n,
        ).after(limits, replies[n]).lines,
{
    let longer = replies.take(n + 1);
    let shorter = replies.take(n);
    lemma_possible_prefix(limits, replies, n + 1);
    lemma_possible_prefix(limits, replies, n);
    lemma_course(limits, shorter);
    assert(longer.drop_last() =~= shorter);
    assert(longer.last() == replies[n]);
    lemma_awaiting_is_alive(limits, run(limits, shorter).process, longer.last());
    assert(place(shorter, n) == place(replies, n)) by {
        reveal(place);
    }
}

} // verus!
