//! What the library asks of the host, and what the host answers.
//!
//! An action names one operation on the outside world with everything the
//! host needs to carry it out. An event is the host's account of how the
//! operation went.

use vstd::prelude::*;
use crate::utils::{
    command_views,
    copy_commands,
    copy_strings,
    texts,
    SetupCommand,
    SetupCommandView,
};

verus! {

/// What a tool that was launched left behind.
#[derive(Debug, PartialEq, Eq)]
pub struct ToolOutput {
    /// The exit code, where the tool exited with one.
    pub status: Option<i32>,
    /// What the tool wrote to its error stream.
    pub stderr: Vec<u8>,
}

/// One operation for the host to perform.
#[derive(Debug, PartialEq, Eq)]
pub enum HostAction {
    /// Say whether anything exists at `path`.
    ProbeDir { path: String },
    /// Create the directory `path` and every missing parent.
    CreateDirAll { path: String },
    /// Create the empty file `path`; fail if it exists.
    CreateNewFile { path: String },
    /// Set the length of the file `path` to `size` bytes.
    Truncate { path: String, size: i64 },
    /// Launch `program` with `args`, wait for it and collect its output.
    RunTool { program: String, args: Vec<String> },
    /// Unpack the gzip-compressed tar archive `archive` under `dest`.
    UnpackArchive { archive: String, dest: String },
    /// Copy the file `from` to `to`.
    CopyFile { from: String, to: String },
    /// Fork. In the child, follow the [`crate::customize::SetupChild`] of
    /// `root` and `commands` to its exit. In the parent, wait for the child.
    RunInChroot { root: String, commands: Vec<SetupCommand> },
    /// Read the whole file `path`.
    ReadFile { path: String },
    /// Create the file `path`, which must not exist, with `contents`.
    WriteNewFile { path: String, contents: Vec<u8> },
}

/// A [`HostAction`] as text and bytes.
pub enum HostActionView {
    ProbeDir { path: Seq<char> },
    CreateDirAll { path: Seq<char> },
    CreateNewFile { path: Seq<char> },
    Truncate { path: Seq<char>, size: i64 },
    RunTool { program: Seq<char>, args: Seq<Seq<char>> },
    UnpackArchive { archive: Seq<char>, dest: Seq<char> },
    CopyFile { from: Seq<char>, to: Seq<char> },
    RunInChroot { root: Seq<char>, commands: Seq<SetupCommandView> },
    ReadFile { path: Seq<char> },
    WriteNewFile { path: Seq<char>, contents: Seq<u8> },
}

impl View for HostAction {
    type V = HostActionView;

    open spec fn view(&self) -> HostActionView {
        match self {
            HostAction::ProbeDir { path } => HostActionView::ProbeDir { path: path@ },
            HostAction::CreateDirAll { path } => HostActionView::CreateDirAll { path: path@ },
            HostAction::CreateNewFile { path } => HostActionView::CreateNewFile { path: path@ },
            HostAction::Truncate { path, size } => HostActionView::Truncate {
                path: path@,
                size: *size,
            },
            HostAction::RunTool { program, args } => HostActionView::RunTool {
                program: program@,
                args: texts(args@),
            },
            HostAction::UnpackArchive { archive, dest } => HostActionView::UnpackArchive {
                archive: archive@,
                dest: dest@,
            },
            HostAction::CopyFile { from, to } => HostActionView::CopyFile { from: from@, to: to@ },
            HostAction::RunInChroot { root, commands } => HostActionView::RunInChroot {
                root: root@,
                commands: command_views(commands@),
            },
            HostAction::ReadFile { path } => HostActionView::ReadFile { path: path@ },
            HostAction::WriteNewFile { path, contents } => HostActionView::WriteNewFile {
                path: path@,
                contents: contents@,
            },
        }
    }
}

/// A copy of a byte string.
pub fn copy_bytes(bytes: &Vec<u8>) -> (copy: Vec<u8>)
    ensures
        copy@ == bytes@,
{
    let mut copy: Vec<u8> = Vec::new();
    let mut index: usize = 0;
    while index < bytes.len()
        invariant
            index <= bytes.len(),
            copy@ == bytes@.subrange(0, index as int),
        decreases bytes.len() - index,
    {
        copy.push(bytes[index]);
        assert(bytes@.subrange(0, index as int).push(bytes@[index as int]) =~= bytes@.subrange(
            0,
            index + 1,
        ));
        index += 1;
    }
    assert(bytes@.subrange(0, bytes@.len() as int) =~= bytes@);
    copy
}

impl HostAction {
    /// A copy of this action.
    pub fn duplicate(&self) -> (copy: HostAction)
        ensures
            copy@ == self@,
    {
        match self {
            HostAction::ProbeDir { path } => HostAction::ProbeDir { path: path.clone() },
            HostAction::CreateDirAll { path } => HostAction::CreateDirAll { path: path.clone() },
            HostAction::CreateNewFile { path } => HostAction::CreateNewFile { path: path.clone() },
            HostAction::Truncate { path, size } => HostAction::Truncate {
                path: path.clone(),
                size: *size,
            },
            HostAction::RunTool { program, args } => HostAction::RunTool {
                program: program.clone(),
                args: copy_strings(args),
            },
            HostAction::UnpackArchive { archive, dest } => HostAction::UnpackArchive {
                archive: archive.clone(),
                dest: dest.clone(),
            },
            HostAction::CopyFile { from, to } => HostAction::CopyFile {
                from: from.clone(),
                to: to.clone(),
            },
            HostAction::RunInChroot { root, commands } => HostAction::RunInChroot {
                root: root.clone(),
                commands: copy_commands(commands),
            },
            HostAction::ReadFile { path } => HostAction::ReadFile { path: path.clone() },
            HostAction::WriteNewFile { path, contents } => HostAction::WriteNewFile {
                path: path.clone(),
                contents: copy_bytes(contents),
            },
        }
    }
}

/// The host's account of the operation it was asked to perform.
#[derive(Debug)]
pub enum HostEvent {
    /// A probe's answer: whether something exists at the path.
    Probed(bool),
    /// The operation was carried out.
    Done,
    /// The tool was launched and has exited.
    ToolRan(ToolOutput),
    /// The file was read; these are its bytes.
    FileRead(Vec<u8>),
    /// The operation failed for the given I/O error.
    IoFailed(std::io::Error),
    /// The operation failed with the given error number.
    SyscallFailed(nix::errno::Errno),
}

/// A [`HostEvent`] with bytes as a sequence.
pub enum HostEventView {
    Probed(bool),
    Done,
    ToolRan { status: Option<i32>, stderr: Seq<u8> },
    FileRead(Seq<u8>),
    IoFailed(std::io::Error),
    SyscallFailed(nix::errno::Errno),
}

impl View for HostEvent {
    type V = HostEventView;

    open spec fn view(&self) -> HostEventView {
        match self {
            HostEvent::Probed(exists) => HostEventView::Probed(*exists),
            HostEvent::Done => HostEventView::Done,
            HostEvent::ToolRan(output) => HostEventView::ToolRan {
                status: output.status,
                stderr: output.stderr@,
            },
            HostEvent::FileRead(bytes) => HostEventView::FileRead(bytes@),
            HostEvent::IoFailed(error) => HostEventView::IoFailed(*error),
            HostEvent::SyscallFailed(errno) => HostEventView::SyscallFailed(*errno),
        }
    }
}

} // verus!
