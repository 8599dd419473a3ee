//! Setting the container's cgroup up, and removing it.

use crate::limits::CgroupLimits;
use crate::step::{
    err, goes_to, join, line_step, out, panic_step, panics, says, silent_step, Flow, Step,
    StepView,
};
use crate::system::{
    Line, LineView, Operation, OperationView, Reply, ReplyView, Stream, CGROUP_PATH,
};
use vstd::prelude::*;

verus! {

/// What the setup of the cgroup waits for.
#[derive(Debug, Clone, Copy, PartialEq, Eq, Structural)]
pub enum CgroupStage {
    /// The controllers are enabled in the parent cgroup, as far as that is possible.
    EnableControllers,
    /// The cgroup's directory is created.
    CreateDirectory,
    /// The memory limit is written.
    LimitMemory,
    /// The CPU limit is written.
    LimitCpu,
    /// The limit on processes is written.
    LimitPids,
}

impl CgroupStage {
    /// Which of the control files the stage writes, in the order of the limits' writes.
    pub open spec fn index(self) -> int {
        match self {
            CgroupStage::LimitMemory => 0,
            CgroupStage::LimitCpu => 1,
            CgroupStage::LimitPids => 2,
            _ => -1,
        }
    }

    /// What the stage asks of the system.
    pub open spec fn asks(self, limits: CgroupLimits) -> OperationView {
        match self {
            CgroupStage::EnableControllers => OperationView::WriteFile {
                path: "/sys/fs/cgroup/cgroup.subtree_control"@,
                contents: "+memory +cpu +pids"@,
            },
            CgroupStage::CreateDirectory => OperationView::CreateDirAll { path: CGROUP_PATH@ },
            _ => OperationView::WriteFile {
                path: CGROUP_PATH@ + "/"@ + limits.writes()[self.index()].0,
                contents: limits.writes()[self.index()].1,
            },
        }
    }

    /// What the stage asks of the system.
    pub fn request(self, limits: &CgroupLimits) -> (operation: Operation)
        ensures
            operation@ == self.asks(*limits),
    {
        match self {
            CgroupStage::EnableControllers => Operation::WriteFile {
                path: "/sys/fs/cgroup/cgroup.subtree_control".to_owned(),
                contents: "+memory +cpu +pids".to_owned(),
            },
            CgroupStage::CreateDirectory => Operation::CreateDirAll {
                path: CGROUP_PATH.to_owned(),
            },
            _ => {
                let (file, value) = self.limit(limits);
                let mut path = join(CGROUP_PATH, "/");
                path.append(file);
                Operation::WriteFile { path, contents: value }
            },
        }
    }

    /// The control file that the stage writes, and its contents.
    fn limit(self, limits: &CgroupLimits) -> (write: (&'static str, String))
        requires
            self.index() >= 0,
        ensures
            (write.0@, write.1@) == limits.writes()[self.index()],
    {
        let writes = limits.cgroup_writes();
        let i: usize = match self {
            CgroupStage::LimitMemory => 0,
            CgroupStage::LimitCpu => 1,
            _ => 2,
        };
        (writes[i].0, writes[i].1.clone())
    }
}

/// The line that reports the cgroup.
pub open spec fn cgroup_ready() -> Seq<char> {
    "Manager: Cgroup ready at "@ + CGROUP_PATH@ + "."@
}

/// The line on the outcome of writing `value` to the control file `file`.
pub open spec fn limit_line(file: Seq<char>, value: Seq<char>, reply: ReplyView) -> LineView {
    match reply {
        ReplyView::Failed(failure) => err(
            "Manager:   "@ + file + " (skipped): "@ + failure.display,
        ),
        _ => out("Manager:   "@ + file + " = "@ + value),
    }
}

/// What the setup does after `reply`. Enabling the controllers is best-effort; without the
/// directory there is a panic; a limit that cannot be written is skipped. A report follows the
/// last limit.
pub open spec fn cgroup_step(
    limits: CgroupLimits,
    stage: CgroupStage,
    reply: ReplyView,
) -> StepView<CgroupStage, ()> {
    let written = limit_line(
        limits.writes()[stage.index()].0,
        limits.writes()[stage.index()].1,
        reply,
    );
    match stage {
        CgroupStage::EnableControllers => match reply {
            ReplyView::Failed(failure) => says(
                err("Manager: cgroup.subtree_control (best-effort): "@ + failure.display),
                Flow::Next(CgroupStage::CreateDirectory),
            ),
            _ => goes_to(Flow::Next(CgroupStage::CreateDirectory)),
        },
        CgroupStage::CreateDirectory => match reply {
            ReplyView::Failed(failure) => panics("create cgroup directory: "@, failure.debug),
            _ => goes_to(Flow::Next(CgroupStage::LimitMemory)),
        },
        CgroupStage::LimitMemory => says(written, Flow::Next(CgroupStage::LimitCpu)),
        CgroupStage::LimitCpu => says(written, Flow::Next(CgroupStage::LimitPids)),
        CgroupStage::LimitPids => StepView {
            lines: seq![written, out(cgroup_ready())],
            flow: Flow::Return(()),
        },
    }
}

/// Reports the outcome of writing a limit.
fn report_limit(limits: &CgroupLimits, stage: CgroupStage, reply: &Reply) -> (line: Line)
    requires
        stage.index() >= 0,
    ensures
        line@ == limit_line(
            limits.writes()[stage.index()].0,
            limits.writes()[stage.index()].1,
            reply@,
        ),
{
    let (file, value) = stage.limit(limits);
    let mut text = join("Manager:   ", file);
    match reply {
        Reply::Failed(failure) => {
            text.append(" (skipped): ");
            text.append(failure.display.as_str());
            Line { stream: Stream::Stderr, text }
        },
        _ => {
            text.append(" = ");
            text.append(value.as_str());
            Line { stream: Stream::Stdout, text }
        },
    }
}

/// Goes on with the setup of the cgroup after the system has answered `stage`.
pub fn setup_cgroup(limits: &CgroupLimits, stage: CgroupStage, reply: &Reply) -> (step: Step<
    CgroupStage,
    (),
>)
    requires
        stage.asks(*limits).answered_by(reply@),
    ensures
        step@ == cgroup_step(*limits, stage, reply@),
{
    match stage {
        CgroupStage::EnableControllers => {
            let next = Flow::Next(CgroupStage::CreateDirectory);
            match reply {
                Reply::Failed(failure) => line_step(
                    Stream::Stderr,
                    join(
                        "Manager: cgroup.subtree_control (best-effort): ",
                        failure.display.as_str(),
                    ),
                    next,
                ),
                _ => silent_step(next),
            }
        },
        CgroupStage::CreateDirectory => match reply {
            Reply::Failed(failure) => panic_step(
                "create cgroup directory: ",
                failure.debug.as_str(),
            ),
            _ => silent_step(Flow::Next(CgroupStage::LimitMemory)),
        },
        CgroupStage::LimitMemory => {
            let line = report_limit(limits, stage, reply);
            line_step(line.stream, line.text, Flow::Next(CgroupStage::LimitCpu))
        },
        CgroupStage::LimitCpu => {
            let line = report_limit(limits, stage, reply);
            line_step(line.stream, line.text, Flow::Next(CgroupStage::LimitPids))
        },
        CgroupStage::LimitPids => {
            let mut text = join("Manager: Cgroup ready at ", CGROUP_PATH);
            text.append(".");
            let mut lines: Vec<Line> = Vec::new();
            lines.push(report_limit(limits, stage, reply));
            lines.push(Line { stream: Stream::Stdout, text });
            Step { lines, flow: Flow::Return(()) }
        },
    }
}

/// The request that removes the cgroup.
pub open spec fn cleanup_asks() -> OperationView {
    OperationView::RemoveDir { path: CGROUP_PATH@ }
}

/// The request that removes the cgroup. It can succeed once every process has left it.
pub fn cleanup_request() -> (operation: Operation)
    ensures
        operation@ == cleanup_asks(),
{
    Operation::RemoveDir { path: CGROUP_PATH.to_owned() }
}

/// The line on the outcome of removing the cgroup.
pub open spec fn cleanup_line(reply: ReplyView) -> LineView {
    match reply {
        ReplyView::Failed(failure) => err("Manager: cgroup cleanup: "@ + failure.display),
        _ => out("Manager: Cgroup removed."@),
    }
}

/// Reports the outcome of removing the cgroup.
pub fn cleanup_cgroup(reply: &Reply) -> (line: Line)
    requires
        cleanup_asks().answered_by(reply@),
    ensures
        line@ == cleanup_line(reply@),
{
    match reply {
        Reply::Failed(failure) => Line {
            stream: Stream::Stderr,
            text: join("Manager: cgroup cleanup: ", failure.display.as_str()),
        },
        _ => Line { stream: Stream::Stdout, text: "Manager: Cgroup removed.".to_owned() },
    }
}

} // verus!
