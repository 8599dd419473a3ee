//! The container process: it joins the cgroup, enters new namespaces, and forks the process
//! that becomes the first of the new PID namespace.

use crate::step::{
    exit_step, exits, goes_to, join, line_step, out, says, silent_step, Flow, Step, StepView,
};
use crate::system::{
    MountFlags, Namespaces, Operation, OperationView, Reply, ReplyView, Stream, CGROUP_PATH,
};
use crate::text::{i32_text, signed_decimal};
use vstd::prelude::*;

verus! {

/// What the container process waits for.
#[derive(Debug, Clone, Copy, PartialEq, Eq, Structural)]
pub enum NamespacesStage {
    /// The process asks for its own number.
    AskPid,
    /// The process joins the cgroup, before any further fork, so that every descendant is born
    /// into it.
    JoinCgroup { pid: i32 },
    /// The namespaces are created.
    Unshare,
    /// Mounts stop propagating to the host.
    MakePrivate,
    /// The process that enters the new PID namespace is forked.
    Fork,
    /// The parent waits for it.
    Wait { child: i32 },
}

impl NamespacesStage {
    /// What the stage asks of the system.
    pub open spec fn asks(self) -> OperationView {
        match self {
            NamespacesStage::AskPid => OperationView::GetPid,
            NamespacesStage::JoinCgroup { pid } => OperationView::WriteFile {
                path: CGROUP_PATH@ + "/cgroup.procs"@,
                contents: signed_decimal(pid as int),
            },
            NamespacesStage::Unshare => OperationView::Unshare {
                namespaces: Namespaces { pid: true, mount: true, ipc: true },
            },
            NamespacesStage::MakePrivate => OperationView::Mount {
                source: None,
                target: "/"@,
                fstype: None,
                flags: MountFlags { private: true, recursive: true, ..MountFlags::empty() },
            },
            NamespacesStage::Fork => OperationView::Fork,
            NamespacesStage::Wait { child } => OperationView::Wait { child },
        }
    }

    /// What is said of a failure at this stage. Asking for the process number does not fail.
    pub open spec fn reason(self) -> Seq<char> {
        match self {
            NamespacesStage::AskPid => ""@,
            NamespacesStage::JoinCgroup { .. } => "Container: cgroup self-assign failed: "@,
            NamespacesStage::Unshare => "Container: unshare failed: "@,
            NamespacesStage::MakePrivate => "Container: failed to make mounts private: "@,
            NamespacesStage::Fork => "Namespace-init: second fork failed: "@,
            NamespacesStage::Wait { .. } => "Namespace-init: waitpid error: "@,
        }
    }

    /// What the stage asks of the system.
    pub fn request(self) -> (operation: Operation)
        ensures
            operation@ == self.asks(),
    {
        match self {
            NamespacesStage::AskPid => Operation::GetPid,
            NamespacesStage::JoinCgroup { pid } => Operation::WriteFile {
                path: join(CGROUP_PATH, "/cgroup.procs"),
                contents: i32_text(pid),
            },
            NamespacesStage::Unshare => Operation::Unshare {
                namespaces: Namespaces { pid: true, mount: true, ipc: true },
            },
            NamespacesStage::MakePrivate => Operation::Mount {
                source: None,
                target: "/".to_owned(),
                fstype: None,
                flags: MountFlags { private: true, recursive: true, ..MountFlags::none() },
            },
            NamespacesStage::Fork => Operation::Fork,
            NamespacesStage::Wait { child } => Operation::Wait { child },
        }
    }
}

/// The line that reports that the process is in the cgroup.
pub open spec fn assigned(pid: i32) -> Seq<char> {
    "Container: Assigned to cgroup (PID "@ + signed_decimal(pid as int) + ")."@
}

/// What the container process does after `reply`. A failure ends it. After the fork the child
/// returns to the caller, and the parent waits for the child and exits with status 0, however
/// the child ended.
pub open spec fn namespaces_step(stage: NamespacesStage, reply: ReplyView) -> StepView<
    NamespacesStage,
    (),
> {
    match reply {
        ReplyView::Failed(failure) => exits(stage.reason(), failure),
        _ => match stage {
            NamespacesStage::AskPid => goes_to(
                Flow::Next(NamespacesStage::JoinCgroup { pid: reply->Pid_0 }),
            ),
            NamespacesStage::JoinCgroup { pid } => says(
                out(assigned(pid)),
                Flow::Next(NamespacesStage::Unshare),
            ),
            NamespacesStage::Unshare => goes_to(Flow::Next(NamespacesStage::MakePrivate)),
            NamespacesStage::MakePrivate => says(
                out("Container: Namespaces created. Forking into new PID namespace..."@),
                Flow::Next(NamespacesStage::Fork),
            ),
            NamespacesStage::Fork => match reply {
                ReplyView::Parent { child } => goes_to(
                    Flow::Next(NamespacesStage::Wait { child }),
                ),
                _ => goes_to(Flow::Return(())),
            },
            NamespacesStage::Wait { .. } => goes_to(Flow::Exit(0)),
        },
    }
}

/// Goes on with the container process after the system has answered `stage`.
pub fn setup_namespaces_and_spawn(stage: NamespacesStage, reply: &Reply) -> (step: Step<
    NamespacesStage,
    (),
>)
    requires
        stage.asks().answered_by(reply@),
    ensures
        step@ == namespaces_step(stage, reply@),
{
    if let Reply::Failed(failure) = reply {
        let reason = match stage {
            NamespacesStage::AskPid => "",
            NamespacesStage::JoinCgroup { .. } => "Container: cgroup self-assign failed: ",
            NamespacesStage::Unshare => "Container: unshare failed: ",
            NamespacesStage::MakePrivate => "Container: failed to make mounts private: ",
            NamespacesStage::Fork => "Namespace-init: second fork failed: ",
            NamespacesStage::Wait { .. } => "Namespace-init: waitpid error: ",
        };
        return exit_step(reason, failure);
    }
    match (stage, reply) {
        (NamespacesStage::AskPid, Reply::Pid(pid)) => silent_step(
            Flow::Next(NamespacesStage::JoinCgroup { pid: *pid }),
        ),
        (NamespacesStage::JoinCgroup { pid }, _) => {
            let mut text = join("Container: Assigned to cgroup (PID ", i32_text(pid).as_str());
            text.append(").");
            line_step(Stream::Stdout, text, Flow::Next(NamespacesStage::Unshare))
        },
        (NamespacesStage::Unshare, _) => silent_step(Flow::Next(NamespacesStage::MakePrivate)),
        (NamespacesStage::MakePrivate, _) => line_step(
            Stream::Stdout,
            "Container: Namespaces created. Forking into new PID namespace...".to_owned(),
            Flow::Next(NamespacesStage::Fork),
        ),
        (NamespacesStage::Fork, Reply::Parent { child }) => silent_step(
            Flow::Next(NamespacesStage::Wait { child: *child }),
        ),
        (NamespacesStage::Fork, _) => silent_step(Flow::Return(())),
        (NamespacesStage::Wait { .. }, _) => silent_step(Flow::Exit(0)),
        _ => vstd::pervasive::unreached(),
    }
}

} // verus!
