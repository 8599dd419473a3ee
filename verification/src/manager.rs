//! The manager: it provisions the identity, sets the cgroup up, forks the container process,
//! waits for it, and removes the cgroup.

use crate::cgroup::{
    cgroup_step, cleanup_asks, cleanup_cgroup, cleanup_line, cleanup_request, setup_cgroup,
    CgroupStage,
};
use crate::identity::{identity_step, provision_identity, IdentityStage};
use crate::limits::CgroupLimits;
use crate::step::{
    err, goes_to, join, line_step, out, says, silent_step, within, Flow, Step, StepView,
};
use crate::system::{Operation, OperationView, Reply, ReplyView, Stream, IDENTITY_FD_VAR};
use crate::text::{i32_text, signed_decimal};
use vstd::prelude::*;

verus! {

/// What the manager waits for.
#[derive(Debug, Clone, Copy)]
pub enum ManagerStage {
    /// The identity is provisioned.
    Identity(IdentityStage),
    /// The number of the identity's descriptor is left in the environment.
    Publish { fd: i32 },
    /// The cgroup is set up.
    Cgroup(CgroupStage),
    /// The container process is forked. From here on the manager owns the cgroup.
    Fork,
    /// The manager waits for the container process.
    Wait { child: i32 },
    /// The cgroup is removed, and the manager exits with this status.
    Cleanup { status: i32 },
}

impl ManagerStage {
    /// What the stage asks of the system.
    pub open spec fn asks(self, limits: CgroupLimits) -> OperationView {
        match self {
            ManagerStage::Identity(stage) => stage.asks(),
            ManagerStage::Publish { fd } => OperationView::SetVar {
                name: IDENTITY_FD_VAR@,
                value: signed_decimal(fd as int),
            },
            ManagerStage::Cgroup(stage) => stage.asks(limits),
            ManagerStage::Fork => OperationView::Fork,
            ManagerStage::Wait { child } => OperationView::Wait { child },
            ManagerStage::Cleanup { .. } => cleanup_asks(),
        }
    }

    /// What the stage asks of the system.
    pub fn request(self, limits: &CgroupLimits) -> (operation: Operation)
        ensures
            operation@ == self.asks(*limits),
    {
        match self {
            ManagerStage::Identity(stage) => stage.request(),
            ManagerStage::Publish { fd } => Operation::SetVar {
                name: IDENTITY_FD_VAR.to_owned(),
                value: i32_text(fd),
            },
            ManagerStage::Cgroup(stage) => stage.request(limits),
            ManagerStage::Fork => Operation::Fork,
            ManagerStage::Wait { child } => Operation::Wait { child },
            ManagerStage::Cleanup { .. } => cleanup_request(),
        }
    }
}

/// The line that reports the container process.
pub open spec fn spawned(child: i32) -> Seq<char> {
    "Manager: Spawned container process PID "@ + signed_decimal(child as int)
}

/// What the manager does after `reply`. After the fork the child returns to the caller. A fork
/// that fails and a container that has ended both lead to the removal of the cgroup, whose
/// outcome does not change the exit status.
pub open spec fn manager_step(
    limits: CgroupLimits,
    stage: ManagerStage,
    reply: ReplyView,
) -> StepView<ManagerStage, ()> {
    match stage {
        ManagerStage::Identity(identity) => within(
            identity_step(identity, reply),
            |identity: IdentityStage| ManagerStage::Identity(identity),
            |fd: i32| Flow::Next(ManagerStage::Publish { fd }),
        ),
        ManagerStage::Publish { .. } => goes_to(
            Flow::Next(ManagerStage::Cgroup(CgroupStage::EnableControllers)),
        ),
        ManagerStage::Cgroup(cgroup) => within(
            cgroup_step(limits, cgroup, reply),
            |cgroup: CgroupStage| ManagerStage::Cgroup(cgroup),
            |done: ()| Flow::Next(ManagerStage::Fork),
        ),
        ManagerStage::Fork => match reply {
            ReplyView::Failed(failure) => says(
                err("Manager: fork failed: "@ + failure.display),
                Flow::Next(ManagerStage::Cleanup { status: 1 }),
            ),
            ReplyView::Parent { child } => says(
                out(spawned(child)),
                Flow::Next(ManagerStage::Wait { child }),
            ),
            _ => goes_to(Flow::Return(())),
        },
        ManagerStage::Wait { .. } => says(
            match reply {
                ReplyView::Failed(failure) => err("Manager: waitpid error: "@ + failure.display),
                _ => out("Manager: Container exited with status: "@ + reply->Status_0),
            },
            Flow::Next(ManagerStage::Cleanup { status: 0 }),
        ),
        ManagerStage::Cleanup { status } => says(cleanup_line(reply), Flow::Exit(status)),
    }
}

/// Goes on with the manager after the system has answered `stage`.
pub fn manage(limits: &CgroupLimits, stage: ManagerStage, reply: &Reply) -> (step: Step<
    ManagerStage,
    (),
>)
    requires
        stage.asks(*limits).answered_by(reply@),
    ensures
        step@ == manager_step(*limits, stage, reply@),
{
    match (stage, reply) {
        (ManagerStage::Identity(identity), _) => {
            let step = provision_identity(identity, reply);
            let flow = match step.flow {
                Flow::Next(identity) => Flow::Next(ManagerStage::Identity(identity)),
                Flow::Return(fd) => Flow::Next(ManagerStage::Publish { fd }),
                Flow::Exit(status) => Flow::Exit(status),
                Flow::Panic => Flow::Panic,
            };
            Step { lines: step.lines, flow }
        },
        (ManagerStage::Publish { .. }, _) => silent_step(
            Flow::Next(ManagerStage::Cgroup(CgroupStage::EnableControllers)),
        ),
        (ManagerStage::Cgroup(cgroup), _) => {
            let step = setup_cgroup(limits, cgroup, reply);
            let flow = match step.flow {
                Flow::Next(cgroup) => Flow::Next(ManagerStage::Cgroup(cgroup)),
                Flow::Return(_) => Flow::Next(ManagerStage::Fork),
                Flow::Exit(status) => Flow::Exit(status),
                Flow::Panic => Flow::Panic,
            };
            Step { lines: step.lines, flow }
        },
        (ManagerStage::Fork, Reply::Failed(failure)) => line_step(
            Stream::Stderr,
            join("Manager: fork failed: ", failure.display.as_str()),
            Flow::Next(ManagerStage::Cleanup { status: 1 }),
        ),
        (ManagerStage::Fork, Reply::Parent { child }) => line_step(
            Stream::Stdout,
            join("Manager: Spawned container process PID ", i32_text(*child).as_str()),
            Flow::Next(ManagerStage::Wait { child: *child }),
        ),
        (ManagerStage::Fork, _) => silent_step(Flow::Return(())),
        (ManagerStage::Wait { .. }, Reply::Failed(failure)) => line_step(
            Stream::Stderr,
            join("Manager: waitpid error: ", failure.display.as_str()),
            Flow::Next(ManagerStage::Cleanup { status: 0 }),
        ),
        (ManagerStage::Wait { .. }, Reply::Status(status)) => line_step(
            Stream::Stdout,
            join("Manager: Container exited with status: ", status.as_str()),
            Flow::Next(ManagerStage::Cleanup { status: 0 }),
        ),
        (ManagerStage::Cleanup { status }, _) => {
            let line = cleanup_cgroup(reply);
            line_step(line.stream, line.text, Flow::Exit(status))
        },
        _ => vstd::pervasive::unreached(),
    }
}

/// The removal of the cgroup leads to the exit with the status that was due before, whatever the
/// status is and whatever the answer.
pub proof fn law_cleanup_keeps_status(limits: CgroupLimits, status: i32, reply: ReplyView)
    ensures
        ({
            let stage = ManagerStage::Cleanup { status };
            let step = manager_step(limits, stage, reply);
            &&& stage.asks(limits) == OperationView::RemoveDir {
                path: "/sys/fs/cgroup/ferrovault"@,
            }
            &&& step.flow == Flow::<ManagerStage, ()>::Exit(status)
            &&& step.lines == seq![
                match reply {
                    ReplyView::Failed(failure) => err(
                        "Manager: cgroup cleanup: "@ + failure.display,
                    ),
                    _ => out("Manager: Cgroup removed."@),
                },
            ]
        }),
{
}

} // verus!
