//! The whole program, from the start of the manager to the end of each process that it forks.

use crate::identity::IdentityStage;
use crate::limits::CgroupLimits;
use crate::manager::{manage, manager_step, ManagerStage};
use crate::namespaces::{namespaces_step, setup_namespaces_and_spawn, NamespacesStage};
use crate::payload::{entered, execute_container_payload, payload_step, PayloadStage};
use crate::rootfs::PivotStage;
use crate::step::{lines_view, out, Flow, StepView};
use crate::system::{Line, LineView, Operation, OperationView, Reply, ReplyView, Stream};
use vstd::prelude::*;

verus! {

/// Where a process of the program stands.
#[derive(Debug, Clone, Copy)]
pub enum Process {
    /// It is the manager.
    Manager(ManagerStage),
    /// It is the process that the manager forked.
    Namespaces(NamespacesStage),
    /// It is the process that was forked into the new PID namespace.
    Payload(PayloadStage),
    /// It has exited, with this status.
    Exited(i32),
    /// It has panicked.
    Panicked,
}

/// What a process prints, and where it stands after that.
#[derive(Debug)]
pub struct Transition {
    pub lines: Vec<Line>,
    pub process: Process,
}

/// The mathematical value of a [`Transition`].
#[verifier::ext_equal]
pub struct TransitionView {
    pub lines: Seq<LineView>,
    pub process: Process,
}

impl View for Transition {
    type V = TransitionView;

    open spec fn view(&self) -> TransitionView {
        TransitionView { lines: lines_view(self.lines), process: self.process }
    }
}

/// The line that the manager begins with.
pub open spec fn starting() -> Seq<char> {
    "=== FerroVault Manager Starting ==="@
}

/// The start of the program.
pub open spec fn initial() -> TransitionView {
    TransitionView {
        lines: seq![out(starting())],
        process: Process::Manager(ManagerStage::Identity(IdentityStage::OpenPool)),
    }
}

/// The transition of a process whose procedure made `step`: where the procedure returns, the
/// process prints `greeting` and goes on at `resume`.
pub open spec fn moves<S, R>(
    step: StepView<S, R>,
    wrap: spec_fn(S) -> Process,
    greeting: Seq<LineView>,
    resume: Process,
) -> TransitionView {
    match step.flow {
        Flow::Next(stage) => TransitionView { lines: step.lines, process: wrap(stage) },
        Flow::Return(_) => TransitionView { lines: step.lines + greeting, process: resume },
        Flow::Exit(status) => TransitionView {
            lines: step.lines,
            process: Process::Exited(status),
        },
        Flow::Panic => TransitionView { lines: step.lines, process: Process::Panicked },
    }
}

impl Process {
    /// What the process asks of the system; nothing once it has ended.
    pub open spec fn asks(self, limits: CgroupLimits) -> Option<OperationView> {
        match self {
            Process::Manager(stage) => Some(stage.asks(limits)),
            Process::Namespaces(stage) => Some(stage.asks()),
            Process::Payload(stage) => Some(stage.asks()),
            _ => None,
        }
    }

    /// Whether the process waits for the system, and `reply` is of the kind it waits for.
    pub open spec fn awaits(self, limits: CgroupLimits, reply: ReplyView) -> bool {
        self.asks(limits) matches Some(operation) && operation.answered_by(reply)
    }

    /// What the process does after `reply`: it goes on with the procedure it is in. The child
    /// of the manager's fork becomes the container process, and the child of that one's fork
    /// becomes the first process of the container.
    pub open spec fn after(self, limits: CgroupLimits, reply: ReplyView) -> TransitionView {
        match self {
            Process::Manager(stage) => moves(
                manager_step(limits, stage, reply),
                |stage: ManagerStage| Process::Manager(stage),
                seq![],
                Process::Namespaces(NamespacesStage::AskPid),
            ),
            Process::Namespaces(stage) => moves(
                namespaces_step(stage, reply),
                |stage: NamespacesStage| Process::Namespaces(stage),
                seq![out(entered())],
                Process::Payload(PayloadStage::Pivot(PivotStage::BindRootfs)),
            ),
            Process::Payload(stage) => moves(
                payload_step(stage, reply),
                |stage: PayloadStage| Process::Payload(stage),
                seq![],
                self,
            ),
            _ => TransitionView { lines: seq![], process: self },
        }
    }

    /// Whether the process owns the cgroup: it is the manager, the cgroup is set up, and its
    /// removal has not come yet.
    pub open spec fn owner(self) -> bool {
        self matches Process::Manager(stage) && (stage is Fork || stage is Wait)
    }

    /// Whether the process owns the cgroup.
    pub fn owns_cgroup(self) -> (owns: bool)
        ensures
            owns == self.owner(),
            owns == (self matches Process::Manager(stage) && (stage is Fork || stage is Wait)),
    {
        match self {
            Process::Manager(ManagerStage::Fork) => true,
            Process::Manager(ManagerStage::Wait { .. }) => true,
            _ => false,
        }
    }

    /// Starts the program.
    pub fn start() -> (transition: Transition)
        ensures
            transition@ == initial(),
    {
        let mut lines: Vec<Line> = Vec::new();
        lines.push(
            Line {
                stream: Stream::Stdout,
                text: "=== FerroVault Manager Starting ===".to_owned(),
            },
        );
        Transition {
            lines,
            process: Process::Manager(ManagerStage::Identity(IdentityStage::OpenPool)),
        }
    }

    /// What the process asks of the system; nothing once it has ended.
    pub fn request(self, limits: &CgroupLimits) -> (operation: Option<Operation>)
        ensures
            match operation {
                Some(operation) => self.asks(*limits) == Some(operation@),
                None => self.asks(*limits) is None,
            },
    {
        match self {
            Process::Manager(stage) => Some(stage.request(limits)),
            Process::Namespaces(stage) => Some(stage.request()),
            Process::Payload(stage) => Some(stage.request()),
            _ => None,
        }
    }

    /// Goes on after the system has answered.
    pub fn advance(self, limits: &CgroupLimits, reply: &Reply) -> (transition: Transition)
        requires
            self.awaits(*limits, reply@),
        ensures
            transition@ == self.after(*limits, reply@),
    {
        match self {
            Process::Manager(stage) => {
                let step = manage(limits, stage, reply);
                let process = match step.flow {
                    Flow::Next(stage) => Process::Manager(stage),
                    Flow::Return(_) => Process::Namespaces(NamespacesStage::AskPid),
                    Flow::Exit(status) => Process::Exited(status),
                    Flow::Panic => Process::Panicked,
                };
                Transition { lines: step.lines, process }
            },
            Process::Namespaces(stage) => {
                let step = setup_namespaces_and_spawn(stage, reply);
                let mut lines = step.lines;
                let process = match step.flow {
                    Flow::Next(stage) => Process::Namespaces(stage),
                    Flow::Return(_) => {
                        lines.push(
                            Line {
                                stream: Stream::Stdout,
                                text: "Container: Entered new PID namespace. I am PID 1."
                                    .to_owned(),
                            },
                        );
                        Process::Payload(PayloadStage::Pivot(PivotStage::BindRootfs))
                    },
                    Flow::Exit(status) => Process::Exited(status),
                    Flow::Panic => Process::Panicked,
                };
                Transition { lines, process }
            },
            Process::Payload(stage) => {
                let step = execute_container_payload(stage, reply);
                let process = match step.flow {
                    Flow::Next(stage) => Process::Payload(stage),
                    Flow::Return(_) => self,
                    Flow::Exit(status) => Process::Exited(status),
                    Flow::Panic => Process::Panicked,
                };
                Transition { lines: step.lines, process }
            },
            _ => vstd::pervasive::unreached(),
        }
    }
}

/// The value of a transition holds all that the transition holds.
pub proof fn law_transition_view(transition: Transition)
    ensures
        transition@.process == transition.process,
        transition@.lines.len() == transition.lines@.len(),
        forall|i: int|
            0 <= i < transition.lines@.len() ==> {
                &&& (#[trigger] transition@.lines[i]).stream == transition.lines@[i].stream
                &&& transition@.lines[i].text == transition.lines@[i].text@
            },
{
}

/// A process waits for any reply that answers what it asks, and for nothing once it has ended.
pub proof fn law_awaits(process: Process, limits: CgroupLimits, reply: ReplyView)
    ensures
        process is Exited || process is Panicked <==> process.asks(limits) is None,
        process.awaits(limits, reply) <==> process.asks(limits) is Some && (process.asks(
            limits,
        )->0).answered_by(reply),
{
}

} // verus!
