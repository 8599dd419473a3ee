//! Provisioning the identity: random bytes in a sealed anonymous file.

use crate::step::{
    goes_to, incomplete, incomplete_text, join, line_step, out, panic_step, panics, says,
    silent_step, Flow, Step, StepView,
};
use crate::system::{Operation, OperationView, Reply, ReplyView, Seals, Stream, IDENTITY_LEN};
use crate::text::{i32_text, signed_decimal};
use vstd::prelude::*;

verus! {

/// What the provisioning of the identity waits for.
#[derive(Debug, Clone, Copy)]
pub enum IdentityStage {
    /// The kernel's entropy pool is opened.
    OpenPool,
    /// The identity is drawn from the pool.
    Draw,
    /// The memory file is created. It may be sealed, and it survives an exec, so that the
    /// container inherits it.
    CreateFile { identity: [u8; 32] },
    /// The identity is written to the memory file.
    Write { identity: [u8; 32], fd: i32 },
    /// The offset, which forked processes share, goes back to the start.
    Rewind { fd: i32 },
    /// Content and size are frozen, and the set of seals is closed.
    Seal { fd: i32 },
}

impl IdentityStage {
    /// What the stage asks of the system.
    pub open spec fn asks(self) -> OperationView {
        match self {
            IdentityStage::OpenPool => OperationView::OpenFile { path: "/dev/urandom"@ },
            IdentityStage::Draw => OperationView::ReadOpened,
            IdentityStage::CreateFile { .. } => OperationView::CreateMemfd {
                name: "ferrovault-identity"@,
                allow_sealing: true,
                close_on_exec: false,
            },
            IdentityStage::Write { identity, fd } => OperationView::WriteIdentity {
                fd,
                identity,
            },
            IdentityStage::Rewind { fd } => OperationView::SeekToStart { fd },
            IdentityStage::Seal { fd } => OperationView::AddSeals {
                fd,
                seals: Seals { seal: true, write: true, shrink: true, grow: true },
            },
        }
    }

    /// What the panic on a failure at this stage says.
    pub open spec fn reason(self) -> Seq<char> {
        match self {
            IdentityStage::OpenPool => "open /dev/urandom: "@,
            IdentityStage::Draw => "read urandom: "@,
            IdentityStage::CreateFile { .. } => "memfd_create failed: "@,
            IdentityStage::Write { .. } => "write identity to memfd: "@,
            IdentityStage::Rewind { .. } => "lseek memfd: "@,
            IdentityStage::Seal { .. } => "seal memfd failed: "@,
        }
    }

    /// What the stage asks of the system.
    pub fn request(self) -> (operation: Operation)
        ensures
            operation@ == self.asks(),
    {
        match self {
            IdentityStage::OpenPool => Operation::OpenFile { path: "/dev/urandom".to_owned() },
            IdentityStage::Draw => Operation::ReadOpened,
            IdentityStage::CreateFile { .. } => Operation::CreateMemfd {
                name: "ferrovault-identity".to_owned(),
                allow_sealing: true,
                close_on_exec: false,
            },
            IdentityStage::Write { identity, fd } => Operation::WriteIdentity { fd, identity },
            IdentityStage::Rewind { fd } => Operation::SeekToStart { fd },
            IdentityStage::Seal { fd } => Operation::AddSeals {
                fd,
                seals: Seals { seal: true, write: true, shrink: true, grow: true },
            },
        }
    }
}

/// The line that reports the provisioned identity.
pub open spec fn provisioned(fd: i32) -> Seq<char> {
    "Manager: Identity provisioned — 32 bytes sealed in memfd (fd="@ + signed_decimal(fd as int)
        + ")."@
}

/// What the provisioning does after `reply`: a failure is a panic, and so is a write of fewer
/// bytes than the identity has; success leads to the next
/// stage, with what was drawn and created, and from the last one back to the caller with the
/// descriptor.
pub open spec fn identity_step(stage: IdentityStage, reply: ReplyView) -> StepView<
    IdentityStage,
    i32,
> {
    match reply {
        ReplyView::Failed(failure) => panics(stage.reason(), failure.debug),
        _ => match stage {
            IdentityStage::OpenPool => goes_to(Flow::Next(IdentityStage::Draw)),
            IdentityStage::Draw => goes_to(
                Flow::Next(IdentityStage::CreateFile { identity: reply->Identity_0 }),
            ),
            IdentityStage::CreateFile { identity } => goes_to(
                Flow::Next(IdentityStage::Write { identity, fd: reply->Descriptor_0 }),
            ),
            IdentityStage::Write { fd, .. } => if reply->Written_count == IDENTITY_LEN {
                goes_to(Flow::Next(IdentityStage::Rewind { fd }))
            } else {
                panics(stage.reason(), incomplete(reply->Written_count))
            },
            IdentityStage::Rewind { fd } => goes_to(Flow::Next(IdentityStage::Seal { fd })),
            IdentityStage::Seal { fd } => says(out(provisioned(fd)), Flow::Return(fd)),
        },
    }
}

/// Goes on with the provisioning after the system has answered `stage`.
pub fn provision_identity(stage: IdentityStage, reply: &Reply) -> (step: Step<IdentityStage, i32>)
    requires
        stage.asks().answered_by(reply@),
    ensures
        step@ == identity_step(stage, reply@),
{
    if let Reply::Failed(failure) = reply {
        let reason = match stage {
            IdentityStage::OpenPool => "open /dev/urandom: ",
            IdentityStage::Draw => "read urandom: ",
            IdentityStage::CreateFile { .. } => "memfd_create failed: ",
            IdentityStage::Write { .. } => "write identity to memfd: ",
            IdentityStage::Rewind { .. } => "lseek memfd: ",
            IdentityStage::Seal { .. } => "seal memfd failed: ",
        };
        return panic_step(reason, failure.debug.as_str());
    }
    match (stage, reply) {
        (IdentityStage::OpenPool, _) => silent_step(Flow::Next(IdentityStage::Draw)),
        (IdentityStage::Draw, Reply::Identity(identity)) => silent_step(
            Flow::Next(IdentityStage::CreateFile { identity: *identity }),
        ),
        (IdentityStage::CreateFile { identity }, Reply::Descriptor(fd)) => silent_step(
            Flow::Next(IdentityStage::Write { identity, fd: *fd }),
        ),
        (IdentityStage::Write { fd, .. }, Reply::Written { count }) => {
            if *count == IDENTITY_LEN {
                silent_step(Flow::Next(IdentityStage::Rewind { fd }))
            } else {
                panic_step("write identity to memfd: ", incomplete_text(*count).as_str())
            }
        },
        (IdentityStage::Rewind { fd }, _) => silent_step(Flow::Next(IdentityStage::Seal { fd })),
        (IdentityStage::Seal { fd }, _) => {
            let mut text = join(
                "Manager: Identity provisioned — 32 bytes sealed in memfd (fd=",
                i32_text(fd).as_str(),
            );
            text.append(").");
            line_step(Stream::Stdout, text, Flow::Return(fd))
        },
        _ => vstd::pervasive::unreached(),
    }
}

} // verus!
