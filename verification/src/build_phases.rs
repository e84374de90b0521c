//! The phases of an image build, and the step from one to the next.
//!
//! This is the build as a mathematical object: a state that holds text and
//! bytes, and a function from a state and an event to what comes next. The
//! build that runs, [`crate::image_builder::ImageBuild`], is held to it.

use vstd::prelude::*;
use crate::error::ImageBuilderError;
use crate::host::{HostActionView, HostEventView};
use crate::kernel::{spec_extract_kernel, Extraction};
use crate::rootfs::RootFsView;
use crate::utils::SetupCommandView;

verus! {

/// The size of a fresh image: 256 MiB.
pub const IMAGE_SIZE: i64 = 256 * 1024 * 1024;

/// A bootable guest as text: the paths of its root disk, its initial ramdisk
/// and its kernel.
pub struct ImageView {
    pub rootfs_path: Seq<char>,
    pub initrd_path: Seq<char>,
    pub kernel_path: Seq<char>,
}

/// The steps that make sure the three directories exist: for each in turn, a
/// probe, and a creation where the probe found nothing.
#[derive(Debug, Clone, Copy, PartialEq, Eq, Structural)]
pub enum DirStep {
    ProbeRoot,
    CreateRoot,
    ProbeWorking,
    CreateWorking,
    ProbeMount,
    CreateMount,
}

/// The steps on the image while it is a plain file.
#[derive(Debug, Clone, Copy, PartialEq, Eq, Structural)]
pub enum UnmountedStep {
    CreateFile,
    SizeFile,
    Format,
    Mount,
}

/// The steps on the image while it is mounted.
#[derive(Debug, Clone, Copy, PartialEq, Eq, Structural)]
pub enum MountedStep {
    Unpack,
    CopyResolver,
    Customize,
    CopyInitramfs,
    ReadKernel,
    WriteKernel,
    Unmount,
}

/// Where a build stands: the operation it is waiting for.
#[derive(Debug, Clone, Copy, PartialEq, Eq, Structural)]
pub enum BuildPhase {
    /// Preparing directories; there is no image yet.
    Dirs(DirStep),
    /// Working on the unmounted image.
    Unmounted(UnmountedStep),
    /// Working on the mounted image.
    Mounted(MountedStep),
}

impl DirStep {
    /// This step asks whether a directory exists.
    pub open spec fn is_probe(self) -> bool {
        self is ProbeRoot || self is ProbeWorking || self is ProbeMount
    }

    /// The creation of the directory that this step is about.
    pub open spec fn creation(self) -> DirStep {
        match self {
            DirStep::ProbeRoot | DirStep::CreateRoot => DirStep::CreateRoot,
            DirStep::ProbeWorking | DirStep::CreateWorking => DirStep::CreateWorking,
            DirStep::ProbeMount | DirStep::CreateMount => DirStep::CreateMount,
        }
    }

    /// The probe of the next directory; `None` after the last one.
    pub open spec fn onward(self) -> Option<DirStep> {
        match self {
            DirStep::ProbeRoot | DirStep::CreateRoot => Some(DirStep::ProbeWorking),
            DirStep::ProbeWorking | DirStep::CreateWorking => Some(DirStep::ProbeMount),
            DirStep::ProbeMount | DirStep::CreateMount => None,
        }
    }
}

impl BuildPhase {
    /// The place of a phase in the order of the build.
    pub open spec fn rank(self) -> nat {
        match self {
            BuildPhase::Dirs(DirStep::ProbeRoot) => 0,
            BuildPhase::Dirs(DirStep::CreateRoot) => 1,
            BuildPhase::Dirs(DirStep::ProbeWorking) => 2,
            BuildPhase::Dirs(DirStep::CreateWorking) => 3,
            BuildPhase::Dirs(DirStep::ProbeMount) => 4,
            BuildPhase::Dirs(DirStep::CreateMount) => 5,
            BuildPhase::Unmounted(UnmountedStep::CreateFile) => 6,
            BuildPhase::Unmounted(UnmountedStep::SizeFile) => 7,
            BuildPhase::Unmounted(UnmountedStep::Format) => 8,
            BuildPhase::Unmounted(UnmountedStep::Mount) => 9,
            BuildPhase::Mounted(MountedStep::Unpack) => 10,
            BuildPhase::Mounted(MountedStep::CopyResolver) => 11,
            BuildPhase::Mounted(MountedStep::Customize) => 12,
            BuildPhase::Mounted(MountedStep::CopyInitramfs) => 13,
            BuildPhase::Mounted(MountedStep::ReadKernel) => 14,
            BuildPhase::Mounted(MountedStep::WriteKernel) => 15,
            BuildPhase::Mounted(MountedStep::Unmount) => 16,
        }
    }
}

/// A build as text: the layout, the inputs, the phase, and the kernel that
/// is waiting to be written.
pub struct BuildView {
    pub image_builder_dir: Seq<char>,
    pub fs: RootFsView,
    pub base_fs_path: Seq<char>,
    pub commands: Seq<SetupCommandView>,
    pub phase: BuildPhase,
    pub kernel: Seq<u8>,
}

impl BuildView {
    /// The same build in another phase.
    pub open spec fn at(self, phase: BuildPhase) -> BuildView {
        BuildView { phase, ..self }
    }

    /// The same build in another phase, with nothing waiting to be written.
    pub open spec fn cleared_at(self, phase: BuildPhase) -> BuildView {
        BuildView { phase, kernel: Seq::empty(), ..self }
    }

    /// The directory that a directory step is about.
    pub open spec fn dir_of(self, step: DirStep) -> Seq<char> {
        match step {
            DirStep::ProbeRoot | DirStep::CreateRoot => self.image_builder_dir,
            DirStep::ProbeWorking | DirStep::CreateWorking => self.fs.working_dir,
            DirStep::ProbeMount | DirStep::CreateMount => self.fs.mount_dir,
        }
    }

    /// What a finished build hands over.
    pub open spec fn artifact(self) -> ImageView {
        ImageView {
            rootfs_path: self.fs.rootfs_file(),
            initrd_path: self.fs.initramfs_dest(),
            kernel_path: self.fs.vmlinux_path(),
        }
    }

    /// The operation that the build is waiting for.
    pub open spec fn pending(self) -> HostActionView {
        match self.phase {
            BuildPhase::Dirs(step) => if step.is_probe() {
                HostActionView::ProbeDir { path: self.dir_of(step) }
            } else {
                HostActionView::CreateDirAll { path: self.dir_of(step) }
            },
            BuildPhase::Unmounted(UnmountedStep::CreateFile) => self.fs.create_request(),
            BuildPhase::Unmounted(UnmountedStep::SizeFile) => self.fs.size_request(IMAGE_SIZE),
            BuildPhase::Unmounted(UnmountedStep::Format) => self.fs.format_request(),
            BuildPhase::Unmounted(UnmountedStep::Mount) => self.fs.mount_request(),
            BuildPhase::Mounted(MountedStep::Unpack) => self.fs.unpack_request(self.base_fs_path),
            BuildPhase::Mounted(MountedStep::CopyResolver) => self.fs.resolver_request(),
            BuildPhase::Mounted(MountedStep::Customize) => self.fs.setup_request(self.commands),
            BuildPhase::Mounted(MountedStep::CopyInitramfs) => self.fs.initramfs_request(),
            BuildPhase::Mounted(MountedStep::ReadKernel) => self.fs.vmlinuz_request(),
            BuildPhase::Mounted(MountedStep::WriteKernel) => self.fs.vmlinux_request(self.kernel),
            BuildPhase::Mounted(MountedStep::Unmount) => self.fs.unmount_request(),
        }
    }

    /// The build after the directory that `step` is about is known to exist.
    pub open spec fn dir_ready(self, step: DirStep) -> BuildView {
        match step.onward() {
            Some(probe) => self.at(BuildPhase::Dirs(probe)),
            None => self.at(BuildPhase::Unmounted(UnmountedStep::CreateFile)),
        }
    }
}

/// How one step of a build ends, as text.
pub enum StepView {
    /// The build goes on in the given state.
    Continue(BuildView),
    /// The build is done and hands over the image.
    Finished(ImageView),
    /// The build ends with the given error.
    Failed(ImageBuilderError),
    /// The build ends with an I/O error that was not handed in as one: the
    /// error with which decompression stopped, or the error that stands for
    /// an error number.
    FailedIo,
}

/// The step that a build takes on an event.
///
/// A failure ends the build, at any phase: an I/O failure with its error, a
/// failed system call with its error number. Sizing the image file is a
/// matter of the filesystem, so where that fails the build ends with an I/O
/// error. A success that answers the pending operation moves the build on;
/// any other event leaves it where it is. What a tool reported, once
/// launched, is not consulted.
pub open spec fn spec_next(build: BuildView, event: HostEventView) -> StepView {
    match event {
        HostEventView::IoFailed(error) => StepView::Failed(ImageBuilderError::Io(error)),
        HostEventView::SyscallFailed(errno) => if build.phase == BuildPhase::Unmounted(
            UnmountedStep::SizeFile,
        ) {
            StepView::FailedIo
        } else {
            StepView::Failed(ImageBuilderError::Syscall(errno))
        },
        HostEventView::Probed(exists) => match build.phase {
            BuildPhase::Dirs(step) => if !step.is_probe() {
                StepView::Continue(build)
            } else if exists {
                StepView::Continue(build.dir_ready(step))
            } else {
                StepView::Continue(build.at(BuildPhase::Dirs(step.creation())))
            },
            _ => StepView::Continue(build),
        },
        HostEventView::Done => match build.phase {
            BuildPhase::Dirs(step) => if step.is_probe() {
                StepView::Continue(build)
            } else {
                StepView::Continue(build.dir_ready(step))
            },
            BuildPhase::Unmounted(UnmountedStep::CreateFile) => StepView::Continue(
                build.at(BuildPhase::Unmounted(UnmountedStep::SizeFile)),
            ),
            BuildPhase::Unmounted(UnmountedStep::SizeFile) => StepView::Continue(
                build.at(BuildPhase::Unmounted(UnmountedStep::Format)),
            ),
            BuildPhase::Mounted(MountedStep::Unpack) => StepView::Continue(
                build.at(BuildPhase::Mounted(MountedStep::CopyResolver)),
            ),
            BuildPhase::Mounted(MountedStep::CopyResolver) => StepView::Continue(
                build.at(BuildPhase::Mounted(MountedStep::Customize)),
            ),
            BuildPhase::Mounted(MountedStep::Customize) => StepView::Continue(
                build.at(BuildPhase::Mounted(MountedStep::CopyInitramfs)),
            ),
            BuildPhase::Mounted(MountedStep::CopyInitramfs) => StepView::Continue(
                build.at(BuildPhase::Mounted(MountedStep::ReadKernel)),
            ),
            BuildPhase::Mounted(MountedStep::WriteKernel) => StepView::Continue(
                build.cleared_at(BuildPhase::Mounted(MountedStep::Unmount)),
            ),
            _ => StepView::Continue(build),
        },
        HostEventView::ToolRan { .. } => match build.phase {
            BuildPhase::Unmounted(UnmountedStep::Format) => StepView::Continue(
                build.at(BuildPhase::Unmounted(UnmountedStep::Mount)),
            ),
            BuildPhase::Unmounted(UnmountedStep::Mount) => StepView::Continue(
                build.at(BuildPhase::Mounted(MountedStep::Unpack)),
            ),
            BuildPhase::Mounted(MountedStep::Unmount) => StepView::Finished(build.artifact()),
            _ => StepView::Continue(build),
        },
        HostEventView::FileRead(vmlinuz) => match build.phase {
            BuildPhase::Mounted(MountedStep::ReadKernel) => match spec_extract_kernel(vmlinuz) {
                Extraction::MissingHeader => StepView::Failed(ImageBuilderError::MissingGzipHeader),
                Extraction::Undecodable => StepView::FailedIo,
                Extraction::Kernel(kernel) => StepView::Continue(
                    BuildView {
                        phase: BuildPhase::Mounted(MountedStep::WriteKernel),
                        kernel,
                        ..build
                    },
                ),
            },
            _ => StepView::Continue(build),
        },
    }
}

impl DirStep {
    /// Whether this step asks whether a directory exists.
    pub fn probes(self) -> (probe: bool)
        ensures
            probe == self.is_probe(),
    {
        match self {
            DirStep::ProbeRoot | DirStep::ProbeWorking | DirStep::ProbeMount => true,
            DirStep::CreateRoot | DirStep::CreateWorking | DirStep::CreateMount => false,
        }
    }

    /// The creation of the directory that this step is about.
    pub fn creating(self) -> (step: DirStep)
        ensures
            step == self.creation(),
    {
        match self {
            DirStep::ProbeRoot | DirStep::CreateRoot => DirStep::CreateRoot,
            DirStep::ProbeWorking | DirStep::CreateWorking => DirStep::CreateWorking,
            DirStep::ProbeMount | DirStep::CreateMount => DirStep::CreateMount,
        }
    }

    /// The probe of the next directory; `None` after the last one.
    pub fn next_probe(self) -> (step: Option<DirStep>)
        ensures
            step == self.onward(),
    {
        match self {
            DirStep::ProbeRoot | DirStep::CreateRoot => Some(DirStep::ProbeWorking),
            DirStep::ProbeWorking | DirStep::CreateWorking => Some(DirStep::ProbeMount),
            DirStep::ProbeMount | DirStep::CreateMount => None,
        }
    }
}

/// The step after a run of events: each event is taken by the state that the
/// events before it led to, and nothing follows the end of a build.
pub open spec fn spec_run(build: BuildView, events: Seq<HostEventView>) -> StepView
    decreases events.len(),
{
    if events.len() == 0 {
        StepView::Continue(build)
    } else {
        match spec_run(build, events.drop_last()) {
            StepView::Continue(reached) => spec_next(reached, events.last()),
            ended => ended,
        }
    }
}

} // verus!
