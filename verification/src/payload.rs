//! The first process of the container: it moves into the root file system, takes the identity
//! over, confines itself, and becomes the entrypoint.

use crate::hex::{hex, to_hex};
use crate::rootfs::{pivot_step, pivot_to_rootfs, PivotStage};
use crate::seccomp::{
    allowed_calls, build_filter, default_allowlist, filter_program, law_allowed_calls,
};
use crate::step::{
    exit_step, exits, goes_to, incomplete, incomplete_text, join, line_step, out, panic_step, panics, says, silent_step,
    within, Flow, Step, StepView,
};
use crate::system::{
    MountFlags, Operation, OperationView, Reply, ReplyView, Stream, IDENTITY_FD_VAR, IDENTITY_LEN,
};
use crate::text::{decimal, parse_i32, read_i32, u64_text};
use vstd::prelude::*;

verus! {

/// What the first process of the container waits for.
#[derive(Debug, Clone, Copy, PartialEq, Eq, Structural)]
pub enum PayloadStage {
    /// It moves into the root file system.
    Pivot(PivotStage),
    /// A procfs of the new PID namespace is mounted, into the new root.
    MountProc,
    /// The number of the identity's descriptor is looked up.
    FindDescriptor,
    /// The identity is read.
    ReadIdentity { fd: i32 },
    /// The system-call filter is installed, as the last thing before the entrypoint runs.
    InstallFilter,
    /// The entrypoint takes the process over. The identity's descriptor stays open for it.
    Exec,
}

impl PayloadStage {
    /// What the stage asks of the system.
    pub open spec fn asks(self) -> OperationView {
        match self {
            PayloadStage::Pivot(stage) => stage.asks(),
            PayloadStage::MountProc => OperationView::Mount {
                source: Some("proc"@),
                target: "/proc"@,
                fstype: Some("proc"@),
                flags: MountFlags {
                    no_suid: true,
                    no_dev: true,
                    no_exec: true,
                    ..MountFlags::empty()
                },
            },
            PayloadStage::FindDescriptor => OperationView::GetVar { name: IDENTITY_FD_VAR@ },
            PayloadStage::ReadIdentity { fd } => OperationView::ReadIdentity { fd },
            PayloadStage::InstallFilter => OperationView::InstallFilter {
                program: filter_program(allowed_calls()),
            },
            PayloadStage::Exec => OperationView::Exec {
                path: "/bin/sh"@,
                args: seq!["/bin/sh"@],
            },
        }
    }

    /// What the stage asks of the system.
    pub fn request(self) -> (operation: Operation)
        ensures
            operation@ == self.asks(),
    {
        match self {
            PayloadStage::Pivot(stage) => stage.request(),
            PayloadStage::MountProc => Operation::Mount {
                source: Some("proc".to_owned()),
                target: "/proc".to_owned(),
                fstype: Some("proc".to_owned()),
                flags: MountFlags {
                    no_suid: true,
                    no_dev: true,
                    no_exec: true,
                    ..MountFlags::none()
                },
            },
            PayloadStage::FindDescriptor => Operation::GetVar {
                name: IDENTITY_FD_VAR.to_owned(),
            },
            PayloadStage::ReadIdentity { fd } => Operation::ReadIdentity { fd },
            PayloadStage::InstallFilter => Operation::InstallFilter {
                program: build_filter(&default_allowlist()),
            },
            PayloadStage::Exec => {
                let mut args: Vec<String> = Vec::new();
                args.push("/bin/sh".to_owned());
                let operation = Operation::Exec { path: "/bin/sh".to_owned(), args };
                assert(operation@->Exec_args =~= seq!["/bin/sh"@]);
                operation
            },
        }
    }
}

/// The line that the process begins with.
pub open spec fn entered() -> Seq<char> {
    "Container: Entered new PID namespace. I am PID 1."@
}

/// The line that shows the identity.
pub open spec fn received(identity: Seq<u8>) -> Seq<char> {
    "Container: Identity received — 0x"@ + hex(identity)
}

/// The line that reports the filter.
pub open spec fn confined(allowed: nat) -> Seq<char> {
    "Container: seccomp filter installed — "@ + decimal(allowed)
        + " syscalls allowed, everything else kills the process."@
}

/// The line that reports the filter of the allowed calls.
pub proof fn law_confined_line()
    ensures
        confined(allowed_calls().len())
            == "Container: seccomp filter installed — 56 syscalls allowed, everything else kills the process."@,
{
    law_allowed_calls();
    reveal_with_fuel(decimal, 3);
    reveal_strlit("Container: seccomp filter installed — ");
    reveal_strlit(" syscalls allowed, everything else kills the process.");
    reveal_strlit(
        "Container: seccomp filter installed — 56 syscalls allowed, everything else kills the process.",
    );
    assert(confined(56)
        =~= "Container: seccomp filter installed — 56 syscalls allowed, everything else kills the process."@);
}

/// What the process does after `reply`. It does not survive a failure: without the identity, or
/// with a part of it only, it panics, and otherwise it exits with status 1.
pub open spec fn payload_step(stage: PayloadStage, reply: ReplyView) -> StepView<
    PayloadStage,
    (),
> {
    match stage {
        PayloadStage::Pivot(pivot) => within(
            pivot_step(pivot, reply),
            |pivot: PivotStage| PayloadStage::Pivot(pivot),
            |done: ()| Flow::Next(PayloadStage::MountProc),
        ),
        PayloadStage::MountProc => match reply {
            ReplyView::Failed(failure) => exits("Container: failed to mount procfs: "@, failure),
            _ => says(
                out(
                    "Container: /proc mounted. Only this namespace's processes are visible."@,
                ),
                Flow::Next(PayloadStage::FindDescriptor),
            ),
        },
        PayloadStage::FindDescriptor => match reply {
            ReplyView::Failed(failure) => panics(
                "FERROVAULT_IDENTITY_FD not set: "@,
                failure.debug,
            ),
            _ => match read_i32(reply->Value_0) {
                Ok(fd) => goes_to(Flow::Next(PayloadStage::ReadIdentity { fd })),
                Err(fault) => panics("invalid fd number: "@, fault.shown()),
            },
        },
        PayloadStage::ReadIdentity { .. } => match reply {
            ReplyView::Failed(failure) => panics("read identity from memfd: "@, failure.debug),
            _ => if reply->Received_count == IDENTITY_LEN {
                says(
                    out(received(reply->Received_buffer@)),
                    Flow::Next(PayloadStage::InstallFilter),
                )
            } else {
                panics("read identity from memfd: "@, incomplete(reply->Received_count))
            },
        },
        PayloadStage::InstallFilter => match reply {
            ReplyView::Failed(failure) => exits(
                "Container: failed to install seccomp filter: "@,
                failure,
            ),
            _ => says(out(confined(allowed_calls().len())), Flow::Next(PayloadStage::Exec)),
        },
        PayloadStage::Exec => exits("Container: execvp failed: "@, reply->Failed_0),
    }
}

/// Goes on with the first process of the container after the system has answered `stage`.
pub fn execute_container_payload(stage: PayloadStage, reply: &Reply) -> (step: Step<
    PayloadStage,
    (),
>)
    requires
        stage.asks().answered_by(reply@),
    ensures
        step@ == payload_step(stage, reply@),
{
    match (stage, reply) {
        (PayloadStage::Pivot(pivot), _) => {
            let step = pivot_to_rootfs(pivot, reply);
            let flow = match step.flow {
                Flow::Next(pivot) => Flow::Next(PayloadStage::Pivot(pivot)),
                Flow::Return(_) => Flow::Next(PayloadStage::MountProc),
                Flow::Exit(status) => Flow::Exit(status),
                Flow::Panic => Flow::Panic,
            };
            Step { lines: step.lines, flow }
        },
        (PayloadStage::MountProc, Reply::Failed(failure)) => exit_step(
            "Container: failed to mount procfs: ",
            failure,
        ),
        (PayloadStage::MountProc, _) => line_step(
            Stream::Stdout,
            "Container: /proc mounted. Only this namespace's processes are visible.".to_owned(),
            Flow::Next(PayloadStage::FindDescriptor),
        ),
        (PayloadStage::FindDescriptor, Reply::Failed(failure)) => panic_step(
            "FERROVAULT_IDENTITY_FD not set: ",
            failure.debug.as_str(),
        ),
        (PayloadStage::FindDescriptor, Reply::Value(value)) => match parse_i32(value.as_str()) {
            Ok(fd) => silent_step(Flow::Next(PayloadStage::ReadIdentity { fd })),
            Err(fault) => panic_step("invalid fd number: ", fault.debug_text().as_str()),
        },
        (PayloadStage::ReadIdentity { .. }, Reply::Failed(failure)) => panic_step(
            "read identity from memfd: ",
            failure.debug.as_str(),
        ),
        (PayloadStage::ReadIdentity { .. }, Reply::Received { count, buffer }) => {
            if *count == IDENTITY_LEN {
                line_step(
                    Stream::Stdout,
                    join("Container: Identity received — 0x", to_hex(buffer).as_str()),
                    Flow::Next(PayloadStage::InstallFilter),
                )
            } else {
                panic_step("read identity from memfd: ", incomplete_text(*count).as_str())
            }
        },
        (PayloadStage::InstallFilter, Reply::Failed(failure)) => exit_step(
            "Container: failed to install seccomp filter: ",
            failure,
        ),
        (PayloadStage::InstallFilter, _) => {
            let mut text = join(
                "Container: seccomp filter installed — ",
                u64_text(default_allowlist().len() as u64).as_str(),
            );
            text.append(" syscalls allowed, everything else kills the process.");
            line_step(Stream::Stdout, text, Flow::Next(PayloadStage::Exec))
        },
        (PayloadStage::Exec, Reply::Failed(failure)) => exit_step(
            "Container: execvp failed: ",
            failure,
        ),
        _ => vstd::pervasive::unreached(),
    }
}

} // verus!
