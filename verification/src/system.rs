//! What the runtime asks of the system, what the system answers, and what is printed.

use crate::seccomp::Instruction;
use vstd::prelude::*;

verus! {

/// The cgroup that holds the container.
pub const CGROUP_PATH: &'static str = "/sys/fs/cgroup/ferrovault";

/// The directory that becomes the container's root.
pub const ROOTFS_PATH: &'static str = "/workspace/rootfs";

/// The environment variable that carries the number of the identity's descriptor.
pub const IDENTITY_FD_VAR: &'static str = "FERROVAULT_IDENTITY_FD";

/// The number of bytes of an identity.
pub const IDENTITY_LEN: usize = 32;

/// The flags of a mount.
#[derive(Debug, Clone, Copy, PartialEq, Eq, Structural)]
pub struct MountFlags {
    pub bind: bool,
    pub recursive: bool,
    pub private: bool,
    pub remount: bool,
    pub read_only: bool,
    pub no_suid: bool,
    pub no_dev: bool,
    pub no_exec: bool,
}

impl MountFlags {
    /// No flag at all.
    pub open spec fn empty() -> MountFlags {
        MountFlags {
            bind: false,
            recursive: false,
            private: false,
            remount: false,
            read_only: false,
            no_suid: false,
            no_dev: false,
            no_exec: false,
        }
    }

    /// No flag at all.
    pub fn none() -> (flags: MountFlags)
        ensures
            flags == MountFlags::empty(),
    {
        MountFlags {
            bind: false,
            recursive: false,
            private: false,
            remount: false,
            read_only: false,
            no_suid: false,
            no_dev: false,
            no_exec: false,
        }
    }
}

/// The namespaces that a process leaves its parent's for.
#[derive(Debug, Clone, Copy, PartialEq, Eq, Structural)]
pub struct Namespaces {
    pub pid: bool,
    pub mount: bool,
    pub ipc: bool,
}

/// The seals that are put on a memory file.
#[derive(Debug, Clone, Copy, PartialEq, Eq, Structural)]
pub struct Seals {
    pub seal: bool,
    pub write: bool,
    pub shrink: bool,
    pub grow: bool,
}

/// A request to the system.
#[derive(Debug)]
pub enum Operation {
    /// Open a file for reading.
    OpenFile { path: String },
    /// Fill an identity from the opened file, and close the file.
    ReadOpened,
    /// Create an anonymous file in memory.
    CreateMemfd { name: String, allow_sealing: bool, close_on_exec: bool },
    /// Write an identity to a descriptor.
    WriteIdentity { fd: i32, identity: [u8; 32] },
    /// Move a descriptor's offset to the start.
    SeekToStart { fd: i32 },
    /// Seal a memory file.
    AddSeals { fd: i32, seals: Seals },
    /// Set an environment variable.
    SetVar { name: String, value: String },
    /// Look an environment variable up.
    GetVar { name: String },
    /// Replace the contents of a file.
    WriteFile { path: String, contents: String },
    /// Create a directory and its missing parents.
    CreateDirAll { path: String },
    /// Remove an empty directory.
    RemoveDir { path: String },
    /// Fork the process.
    Fork,
    /// Wait for a child to end.
    Wait { child: i32 },
    /// Ask for the number of the process.
    GetPid,
    /// Enter new namespaces.
    Unshare { namespaces: Namespaces },
    /// Mount a file system, or change a mount.
    Mount {
        source: Option<String>,
        target: String,
        fstype: Option<String>,
        flags: MountFlags,
    },
    /// Change the working directory.
    ChangeDir { path: String },
    /// Make a mount the root and put the old root below it.
    PivotRoot { new_root: String, put_old: String },
    /// Unmount a file system, at once or lazily.
    Unmount { target: String, detach: bool },
    /// Read an identity from a descriptor.
    ReadIdentity { fd: i32 },
    /// Confine the process to what a filter lets through.
    InstallFilter { program: Vec<Instruction> },
    /// Replace the process image.
    Exec { path: String, args: Vec<String> },
}

/// The mathematical value of an [`Operation`].
pub enum OperationView {
    OpenFile { path: Seq<char> },
    ReadOpened,
    CreateMemfd { name: Seq<char>, allow_sealing: bool, close_on_exec: bool },
    WriteIdentity { fd: i32, identity: [u8; 32] },
    SeekToStart { fd: i32 },
    AddSeals { fd: i32, seals: Seals },
    SetVar { name: Seq<char>, value: Seq<char> },
    GetVar { name: Seq<char> },
    WriteFile { path: Seq<char>, contents: Seq<char> },
    CreateDirAll { path: Seq<char> },
    RemoveDir { path: Seq<char> },
    Fork,
    Wait { child: i32 },
    GetPid,
    Unshare { namespaces: Namespaces },
    Mount {
        source: Option<Seq<char>>,
        target: Seq<char>,
        fstype: Option<Seq<char>>,
        flags: MountFlags,
    },
    ChangeDir { path: Seq<char> },
    PivotRoot { new_root: Seq<char>, put_old: Seq<char> },
    Unmount { target: Seq<char>, detach: bool },
    ReadIdentity { fd: i32 },
    InstallFilter { program: Seq<Instruction> },
    Exec { path: Seq<char>, args: Seq<Seq<char>> },
}

pub open spec fn option_text(text: Option<String>) -> Option<Seq<char>> {
    match text {
        Some(text) => Some(text@),
        None => None,
    }
}

impl View for Operation {
    type V = OperationView;

    open spec fn view(&self) -> OperationView {
        match *self {
            Operation::OpenFile { path } => OperationView::OpenFile { path: path@ },
            Operation::ReadOpened => OperationView::ReadOpened,
            Operation::CreateMemfd { name, allow_sealing, close_on_exec } =>
                OperationView::CreateMemfd { name: name@, allow_sealing, close_on_exec },
            Operation::WriteIdentity { fd, identity } => OperationView::WriteIdentity {
                fd,
                identity,
            },
            Operation::SeekToStart { fd } => OperationView::SeekToStart { fd },
            Operation::AddSeals { fd, seals } => OperationView::AddSeals { fd, seals },
            Operation::SetVar { name, value } => OperationView::SetVar {
                name: name@,
                value: value@,
            },
            Operation::GetVar { name } => OperationView::GetVar { name: name@ },
            Operation::WriteFile { path, contents } => OperationView::WriteFile {
                path: path@,
                contents: contents@,
            },
            Operation::CreateDirAll { path } => OperationView::CreateDirAll { path: path@ },
            Operation::RemoveDir { path } => OperationView::RemoveDir { path: path@ },
            Operation::Fork => OperationView::Fork,
            Operation::Wait { child } => OperationView::Wait { child },
            Operation::GetPid => OperationView::GetPid,
            Operation::Unshare { namespaces } => OperationView::Unshare { namespaces },
            Operation::Mount { source, target, fstype, flags } => OperationView::Mount {
                source: option_text(source),
                target: target@,
                fstype: option_text(fstype),
                flags,
            },
            Operation::ChangeDir { path } => OperationView::ChangeDir { path: path@ },
            Operation::PivotRoot { new_root, put_old } => OperationView::PivotRoot {
                new_root: new_root@,
                put_old: put_old@,
            },
            Operation::Unmount { target, detach } => OperationView::Unmount {
                target: target@,
                detach,
            },
            Operation::ReadIdentity { fd } => OperationView::ReadIdentity { fd },
            Operation::InstallFilter { program } => OperationView::InstallFilter {
                program: program@,
            },
            Operation::Exec { path, args } => OperationView::Exec {
                path: path@,
                args: args@.map_values(|arg: String| arg@),
            },
        }
    }
}

/// How an operation failed: the error as it is displayed, and as a panic shows it.
#[derive(Debug)]
pub struct Failure {
    pub display: String,
    pub debug: String,
}

/// The mathematical value of a [`Failure`].
pub struct FailureView {
    pub display: Seq<char>,
    pub debug: Seq<char>,
}

impl View for Failure {
    type V = FailureView;

    open spec fn view(&self) -> FailureView {
        FailureView { display: self.display@, debug: self.debug@ }
    }
}

/// The system's answer to an [`Operation`].
#[derive(Debug)]
pub enum Reply {
    /// The operation succeeded.
    Done,
    /// An identity was drawn.
    Identity([u8; 32]),
    /// So many bytes were written.
    Written { count: usize },
    /// So many bytes were read, and stand at the start of the buffer.
    Received { count: usize, buffer: [u8; 32] },
    /// A file was created, with this descriptor.
    Descriptor(i32),
    /// The number of the process.
    Pid(i32),
    /// The fork succeeded, and this is the parent.
    Parent { child: i32 },
    /// The fork succeeded, and this is the child.
    Child,
    /// The child ended, with the status that this text shows.
    Status(String),
    /// The value of an environment variable.
    Value(String),
    /// The operation failed.
    Failed(Failure),
}

/// The mathematical value of a [`Reply`].
pub enum ReplyView {
    Done,
    Identity([u8; 32]),
    Written { count: usize },
    Received { count: usize, buffer: [u8; 32] },
    Descriptor(i32),
    Pid(i32),
    Parent { child: i32 },
    Child,
    Status(Seq<char>),
    Value(Seq<char>),
    Failed(FailureView),
}

impl View for Reply {
    type V = ReplyView;

    open spec fn view(&self) -> ReplyView {
        match *self {
            Reply::Done => ReplyView::Done,
            Reply::Identity(identity) => ReplyView::Identity(identity),
            Reply::Written { count } => ReplyView::Written { count },
            Reply::Received { count, buffer } => ReplyView::Received { count, buffer },
            Reply::Descriptor(fd) => ReplyView::Descriptor(fd),
            Reply::Pid(pid) => ReplyView::Pid(pid),
            Reply::Parent { child } => ReplyView::Parent { child },
            Reply::Child => ReplyView::Child,
            Reply::Status(text) => ReplyView::Status(text@),
            Reply::Value(text) => ReplyView::Value(text@),
            Reply::Failed(failure) => ReplyView::Failed(failure@),
        }
    }
}

impl OperationView {
    /// Whether `reply` is of the kind that answers this operation. Setting a variable and
    /// asking for the process number do not fail; an exec that returns has failed.
    pub open spec fn answered_by(self, reply: ReplyView) -> bool {
        match self {
            OperationView::ReadOpened => reply is Identity || reply is Failed,
            OperationView::WriteIdentity { .. } => reply is Written || reply is Failed,
            OperationView::ReadIdentity { .. } => reply is Received || reply is Failed,
            OperationView::CreateMemfd { .. } => reply is Descriptor || reply is Failed,
            OperationView::SetVar { .. } => reply is Done,
            OperationView::GetVar { .. } => reply is Value || reply is Failed,
            OperationView::Fork => reply is Parent || reply is Child || reply is Failed,
            OperationView::Wait { .. } => reply is Status || reply is Failed,
            OperationView::GetPid => reply is Pid,
            OperationView::Exec { .. } => reply is Failed,
            _ => reply is Done || reply is Failed,
        }
    }
}

impl Operation {
    /// Whether `reply` is of the kind that answers this operation.
    pub fn answered_by(&self, reply: &Reply) -> (answered: bool)
        ensures
            answered == self@.answered_by(reply@),
    {
        match self {
            Operation::ReadOpened => match reply {
                Reply::Identity(_) | Reply::Failed(_) => true,
                _ => false,
            },
            Operation::WriteIdentity { .. } => match reply {
                Reply::Written { .. } | Reply::Failed(_) => true,
                _ => false,
            },
            Operation::ReadIdentity { .. } => match reply {
                Reply::Received { .. } | Reply::Failed(_) => true,
                _ => false,
            },
            Operation::CreateMemfd { .. } => match reply {
                Reply::Descriptor(_) | Reply::Failed(_) => true,
                _ => false,
            },
            Operation::SetVar { .. } => match reply {
                Reply::Done => true,
                _ => false,
            },
            Operation::GetVar { .. } => match reply {
                Reply::Value(_) | Reply::Failed(_) => true,
                _ => false,
            },
            Operation::Fork => match reply {
                Reply::Parent { .. } | Reply::Child | Reply::Failed(_) => true,
                _ => false,
            },
            Operation::Wait { .. } => match reply {
                Reply::Status(_) | Reply::Failed(_) => true,
                _ => false,
            },
            Operation::GetPid => match reply {
                Reply::Pid(_) => true,
                _ => false,
            },
            Operation::Exec { .. } => match reply {
                Reply::Failed(_) => true,
                _ => false,
            },
            _ => match reply {
                Reply::Done | Reply::Failed(_) => true,
                _ => false,
            },
        }
    }
}

/// Where a line goes.
#[derive(Debug, Clone, Copy, PartialEq, Eq, Structural)]
pub enum Stream {
    /// Standard output.
    Stdout,
    /// Standard error.
    Stderr,
    /// The message of a panic.
    Panic,
}

/// A line that is printed.
#[derive(Debug)]
pub struct Line {
    pub stream: Stream,
    pub text: String,
}

/// The mathematical value of a [`Line`].
pub struct LineView {
    pub stream: Stream,
    pub text: Seq<char>,
}

impl View for Line {
    type V = LineView;

    open spec fn view(&self) -> LineView {
        LineView { stream: self.stream, text: self.text@ }
    }
}

/// The value of an operation holds all that the operation holds.
pub proof fn law_operation_view(operation: Operation)
    ensures
        match operation {
            Operation::OpenFile { path } => operation@ == (OperationView::OpenFile {
                path: path@,
            }),
            Operation::ReadOpened => operation@ == OperationView::ReadOpened,
            Operation::CreateMemfd { name, allow_sealing, close_on_exec } => operation@ == (
            OperationView::CreateMemfd { name: name@, allow_sealing, close_on_exec }),
            Operation::WriteIdentity { fd, identity } => operation@ == (
            OperationView::WriteIdentity { fd, identity }),
            Operation::SeekToStart { fd } => operation@ == (OperationView::SeekToStart { fd }),
            Operation::AddSeals { fd, seals } => operation@ == (OperationView::AddSeals {
                fd,
                seals,
            }),
            Operation::SetVar { name, value } => operation@ == (OperationView::SetVar {
                name: name@,
                value: value@,
            }),
            Operation::GetVar { name } => operation@ == (OperationView::GetVar { name: name@ }),
            Operation::WriteFile { path, contents } => operation@ == (OperationView::WriteFile {
                path: path@,
                contents: contents@,
            }),
            Operation::CreateDirAll { path } => operation@ == (OperationView::CreateDirAll {
                path: path@,
            }),
            Operation::RemoveDir { path } => operation@ == (OperationView::RemoveDir {
                path: path@,
            }),
            Operation::Fork => operation@ == OperationView::Fork,
            Operation::Wait { child } => operation@ == (OperationView::Wait { child }),
            Operation::GetPid => operation@ == OperationView::GetPid,
            Operation::Unshare { namespaces } => operation@ == (OperationView::Unshare {
                namespaces,
            }),
            Operation::Mount { source, target, fstype, flags } => {
                &&& operation@ is Mount
                &&& source is None <==> operation@->source is None
                &&& source matches Some(text) ==> operation@->source == Some(text@)
                &&& operation@->Mount_target == target@
                &&& fstype is None <==> operation@->fstype is None
                &&& fstype matches Some(text) ==> operation@->fstype == Some(text@)
                &&& operation@->flags == flags
            },
            Operation::ChangeDir { path } => operation@ == (OperationView::ChangeDir {
                path: path@,
            }),
            Operation::PivotRoot { new_root, put_old } => operation@ == (
            OperationView::PivotRoot { new_root: new_root@, put_old: put_old@ }),
            Operation::Unmount { target, detach } => operation@ == (OperationView::Unmount {
                target: target@,
                detach,
            }),
            Operation::ReadIdentity { fd } => operation@ == (OperationView::ReadIdentity { fd }),
            Operation::InstallFilter { program } => operation@ == (
            OperationView::InstallFilter { program: program@ }),
            Operation::Exec { path, args } => {
                &&& operation@ is Exec
                &&& operation@->Exec_path == path@
                &&& operation@->args.len() == args@.len()
                &&& forall|i: int|
                    0 <= i < args@.len() ==> #[trigger] operation@->args[i] == args@[i]@
            },
        },
{
}

/// The value of a reply holds all that the reply holds.
pub proof fn law_reply_view(reply: Reply)
    ensures
        match reply {
            Reply::Done => reply@ == ReplyView::Done,
            Reply::Identity(identity) => reply@ == ReplyView::Identity(identity),
            Reply::Written { count } => reply@ == (ReplyView::Written { count }),
            Reply::Received { count, buffer } => reply@ == (ReplyView::Received {
                count,
                buffer,
            }),
            Reply::Descriptor(fd) => reply@ == ReplyView::Descriptor(fd),
            Reply::Pid(pid) => reply@ == ReplyView::Pid(pid),
            Reply::Parent { child } => reply@ == (ReplyView::Parent { child }),
            Reply::Child => reply@ == ReplyView::Child,
            Reply::Status(text) => reply@ == ReplyView::Status(text@),
            Reply::Value(text) => reply@ == ReplyView::Value(text@),
            Reply::Failed(failure) => reply@ == ReplyView::Failed(
                FailureView { display: failure.display@, debug: failure.debug@ },
            ),
        },
{
}

/// The value of a line holds all that the line holds.
pub proof fn law_line_view(line: Line)
    ensures
        line@.stream == line.stream,
        line@.text == line.text@,
{
}

/// Which replies answer an operation: the one kind, or for a fork the two kinds, of success that
/// it has, and a failure, where it can fail at all. An exec answers only by failing.
pub proof fn law_answers(operation: OperationView, reply: ReplyView)
    ensures
        reply is Failed ==> (operation.answered_by(reply) <==> !(operation is SetVar)
            && !(operation is GetPid)),
        reply is Identity ==> (operation.answered_by(reply) <==> operation is ReadOpened),
        reply is Written ==> (operation.answered_by(reply) <==> operation is WriteIdentity),
        reply is Received ==> (operation.answered_by(reply) <==> operation is ReadIdentity),
        reply is Descriptor ==> (operation.answered_by(reply) <==> operation is CreateMemfd),
        reply is Pid ==> (operation.answered_by(reply) <==> operation is GetPid),
        reply is Parent || reply is Child ==> (operation.answered_by(reply) <==> operation
            == OperationView::Fork),
        reply is Status ==> (operation.answered_by(reply) <==> operation is Wait),
        reply is Value ==> (operation.answered_by(reply) <==> operation is GetVar),
        reply is Done ==> (operation.answered_by(reply) <==> {
            ||| operation is OpenFile
            ||| operation is SeekToStart
            ||| operation is AddSeals
            ||| operation is SetVar
            ||| operation is WriteFile
            ||| operation is CreateDirAll
            ||| operation is RemoveDir
            ||| operation is Unshare
            ||| operation is Mount
            ||| operation is ChangeDir
            ||| operation is PivotRoot
            ||| operation is Unmount
            ||| operation is InstallFilter
        }),
{
}

} // verus!
