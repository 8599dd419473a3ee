//! Moving the container into its own root file system.

use crate::step::{
    exit_step, exits, goes_to, join, line_step, out, says, silent_step, Flow, Step, StepView,
};
use crate::system::{
    MountFlags, Operation, OperationView, Reply, ReplyView, Stream, ROOTFS_PATH,
};
use vstd::prelude::*;

verus! {

/// What the move into the root file system waits for.
#[derive(Debug, Clone, Copy, PartialEq, Eq, Structural)]
pub enum PivotStage {
    /// The rootfs is bind-mounted onto itself, so that it is a mount point of its own.
    BindRootfs,
    /// The directory for the old root is created below the new one.
    CreatePutOld,
    /// The rootfs becomes the working directory.
    EnterRootfs,
    /// The rootfs becomes the root.
    Pivot,
    /// The new root becomes the working directory.
    EnterNewRoot,
    /// The old root is detached lazily.
    DetachOldRoot,
    /// The mount point of the old root is removed, while the new root is still writable.
    RemoveOldRoot,
    /// The new root is remounted read-only: a call of its own, because a bind mount ignores
    /// the read-only flag.
    RemountReadOnly,
}

impl PivotStage {
    /// What the stage asks of the system.
    pub open spec fn asks(self) -> OperationView {
        match self {
            PivotStage::BindRootfs => OperationView::Mount {
                source: Some(ROOTFS_PATH@),
                target: ROOTFS_PATH@,
                fstype: None,
                flags: MountFlags { bind: true, recursive: true, ..MountFlags::empty() },
            },
            PivotStage::CreatePutOld => OperationView::CreateDirAll {
                path: ROOTFS_PATH@ + "/.oldroot"@,
            },
            PivotStage::EnterRootfs => OperationView::ChangeDir { path: ROOTFS_PATH@ },
            PivotStage::Pivot => OperationView::PivotRoot {
                new_root: "."@,
                put_old: ".oldroot"@,
            },
            PivotStage::EnterNewRoot => OperationView::ChangeDir { path: "/"@ },
            PivotStage::DetachOldRoot => OperationView::Unmount {
                target: "/.oldroot"@,
                detach: true,
            },
            PivotStage::RemoveOldRoot => OperationView::RemoveDir { path: "/.oldroot"@ },
            PivotStage::RemountReadOnly => OperationView::Mount {
                source: None,
                target: "/"@,
                fstype: None,
                flags: MountFlags {
                    bind: true,
                    remount: true,
                    read_only: true,
                    recursive: true,
                    ..MountFlags::empty()
                },
            },
        }
    }

    /// What is said of a failure at this stage.
    pub open spec fn reason(self) -> Seq<char> {
        match self {
            PivotStage::BindRootfs => "Container: failed to bind-mount rootfs: "@,
            PivotStage::CreatePutOld => "Container: failed to create pivot_root put_old dir: "@,
            PivotStage::EnterRootfs => "Container: chdir into rootfs failed: "@,
            PivotStage::Pivot => "Container: pivot_root failed: "@,
            PivotStage::EnterNewRoot => "Container: chdir to new / failed: "@,
            PivotStage::DetachOldRoot => "Container: failed to unmount old root: "@,
            PivotStage::RemoveOldRoot => "Container: failed to remove old root mountpoint: "@,
            PivotStage::RemountReadOnly => "Container: failed to remount rootfs read-only: "@,
        }
    }

    /// The stage that follows, or none where the move is complete.
    pub open spec fn successor(self) -> Option<PivotStage> {
        match self {
            PivotStage::BindRootfs => Some(PivotStage::CreatePutOld),
            PivotStage::CreatePutOld => Some(PivotStage::EnterRootfs),
            PivotStage::EnterRootfs => Some(PivotStage::Pivot),
            PivotStage::Pivot => Some(PivotStage::EnterNewRoot),
            PivotStage::EnterNewRoot => Some(PivotStage::DetachOldRoot),
            PivotStage::DetachOldRoot => Some(PivotStage::RemoveOldRoot),
            PivotStage::RemoveOldRoot => Some(PivotStage::RemountReadOnly),
            PivotStage::RemountReadOnly => None,
        }
    }

    /// What the stage asks of the system.
    pub fn request(self) -> (operation: Operation)
        ensures
            operation@ == self.asks(),
    {
        match self {
            PivotStage::BindRootfs => Operation::Mount {
                source: Some(ROOTFS_PATH.to_owned()),
                target: ROOTFS_PATH.to_owned(),
                fstype: None,
                flags: MountFlags { bind: true, recursive: true, ..MountFlags::none() },
            },
            PivotStage::CreatePutOld => Operation::CreateDirAll {
                path: join(ROOTFS_PATH, "/.oldroot"),
            },
            PivotStage::EnterRootfs => Operation::ChangeDir { path: ROOTFS_PATH.to_owned() },
            PivotStage::Pivot => Operation::PivotRoot {
                new_root: ".".to_owned(),
                put_old: ".oldroot".to_owned(),
            },
            PivotStage::EnterNewRoot => Operation::ChangeDir { path: "/".to_owned() },
            PivotStage::DetachOldRoot => Operation::Unmount {
                target: "/.oldroot".to_owned(),
                detach: true,
            },
            PivotStage::RemoveOldRoot => Operation::RemoveDir { path: "/.oldroot".to_owned() },
            PivotStage::RemountReadOnly => Operation::Mount {
                source: None,
                target: "/".to_owned(),
                fstype: None,
                flags: MountFlags {
                    bind: true,
                    remount: true,
                    read_only: true,
                    recursive: true,
                    ..MountFlags::none()
                },
            },
        }
    }
}

/// The line that reports the completed move.
pub open spec fn pivoted() -> Seq<char> {
    "Container: pivoted into isolated rootfs at "@ + ROOTFS_PATH@ + " (now read-only)."@
}

/// What the move does after `reply`: a failure ends the process, and success leads to the next
/// stage, or back to the caller with a report.
pub open spec fn pivot_step(stage: PivotStage, reply: ReplyView) -> StepView<PivotStage, ()> {
    match reply {
        ReplyView::Failed(failure) => exits(stage.reason(), failure),
        _ => match stage.successor() {
            Some(next) => goes_to(Flow::Next(next)),
            None => says(out(pivoted()), Flow::Return(())),
        },
    }
}

/// Goes on with the move into the root file system after the system has answered `stage`.
pub fn pivot_to_rootfs(stage: PivotStage, reply: &Reply) -> (step: Step<PivotStage, ()>)
    requires
        stage.asks().answered_by(reply@),
    ensures
        step@ == pivot_step(stage, reply@),
{
    if let Reply::Failed(failure) = reply {
        let reason = match stage {
            PivotStage::BindRootfs => "Container: failed to bind-mount rootfs: ",
            PivotStage::CreatePutOld => "Container: failed to create pivot_root put_old dir: ",
            PivotStage::EnterRootfs => "Container: chdir into rootfs failed: ",
            PivotStage::Pivot => "Container: pivot_root failed: ",
            PivotStage::EnterNewRoot => "Container: chdir to new / failed: ",
            PivotStage::DetachOldRoot => "Container: failed to unmount old root: ",
            PivotStage::RemoveOldRoot => "Container: failed to remove old root mountpoint: ",
            PivotStage::RemountReadOnly => "Container: failed to remount rootfs read-only: ",
        };
        return exit_step(reason, failure);
    }
    match stage {
        PivotStage::BindRootfs => silent_step(Flow::Next(PivotStage::CreatePutOld)),
        PivotStage::CreatePutOld => silent_step(Flow::Next(PivotStage::EnterRootfs)),
        PivotStage::EnterRootfs => silent_step(Flow::Next(PivotStage::Pivot)),
        PivotStage::Pivot => silent_step(Flow::Next(PivotStage::EnterNewRoot)),
        PivotStage::EnterNewRoot => silent_step(Flow::Next(PivotStage::DetachOldRoot)),
        PivotStage::DetachOldRoot => silent_step(Flow::Next(PivotStage::RemoveOldRoot)),
        PivotStage::RemoveOldRoot => silent_step(Flow::Next(PivotStage::RemountReadOnly)),
        PivotStage::RemountReadOnly => {
            let mut text = join("Container: pivoted into isolated rootfs at ", ROOTFS_PATH);
            text.append(" (now read-only).");
            line_step(Stream::Stdout, text, Flow::Return(()))
        },
    }
}

} // verus!
