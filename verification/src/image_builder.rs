//! The image build from start to finish.
//!
//! A build is a state machine. [`ImageBuild::pending`] names the operation
//! that the host has to perform now; [`ImageBuild::advance`] takes the host's
//! account of it and gives the next state, the finished [`Image`], or the
//! error that ended the build. The stages come in one fixed order, each after
//! the one before it has succeeded, and the first failure ends the build: no
//! later stage is asked for, and in particular a mounted image is not
//! unmounted.

use vstd::prelude::*;
use crate::error::{io_error_of, ImageBuilderError};
use crate::build_phases::{
    spec_next,
    BuildPhase,
    BuildView,
    DirStep,
    ImageView,
    MountedStep,
    StepView,
    UnmountedStep,
    IMAGE_SIZE,
};
use crate::host::{copy_bytes, HostAction, HostActionView, HostEvent};
use crate::paths::{join, spec_join};
use crate::rootfs::{ImageRootFs, Mounted, RootFsView, Unmounted, MOUNT};
use crate::utils::{
    alpine_setup_commands,
    command_views,
    copy_commands,
    get_alpine_setup_commands,
    SetupCommand,
    SetupCommandView,
};

verus! {

/// Where the service keeps its state.
pub const VAR_DIR: &'static str = "/var/lib/fc-man";

/// The builder's directory under [`VAR_DIR`].
pub const IMAGE_BUILDER: &'static str = "image-builder";

/// A bootable guest: the paths of its root disk, its initial ramdisk and its
/// kernel. Only a finished build makes one.
#[derive(Debug, PartialEq, Eq)]
pub struct Image {
    rootfs_path: String,
    initrd_path: String,
    kernel_path: String,
}

impl View for Image {
    type V = ImageView;

    closed spec fn view(&self) -> ImageView {
        ImageView {
            rootfs_path: self.rootfs_path@,
            initrd_path: self.initrd_path@,
            kernel_path: self.kernel_path@,
        }
    }
}

impl Image {
    /// The formatted disk image, which holds the customized filesystem.
    pub fn rootfs_path(&self) -> (path: &str)
        ensures
            path@ == self@.rootfs_path,
    {
        self.rootfs_path.as_str()
    }

    /// The initial ramdisk.
    pub fn initrd_path(&self) -> (path: &str)
        ensures
            path@ == self@.initrd_path,
    {
        self.initrd_path.as_str()
    }

    /// The decompressed kernel.
    pub fn kernel_path(&self) -> (path: &str)
        ensures
            path@ == self@.kernel_path,
    {
        self.kernel_path.as_str()
    }
}

/// The image with its status, or the paths that it will be made from.
#[derive(Debug)]
enum Stage {
    Dirs { id: String, working_dir: String, mount_dir: String, dir_step: DirStep },
    Unmounted { image: ImageRootFs<Unmounted>, image_step: UnmountedStep },
    Mounted { mounted: ImageRootFs<Mounted>, mounted_step: MountedStep, kernel: Vec<u8> },
}

/// A build in progress.
#[derive(Debug)]
pub struct ImageBuild {
    builder: ImageBuilder,
    base_fs_path: String,
    commands: Vec<SetupCommand>,
    stage: Stage,
}

/// How one step of a build ends.
#[derive(Debug)]
pub enum BuildStep {
    /// The build goes on: perform what is pending now.
    Continue(ImageBuild),
    /// The build is done.
    Finished(Image),
    /// The build has ended with this error. Nothing was cleaned up.
    Failed(ImageBuilderError),
}

impl BuildStep {
    /// This step is the one that `expected` describes.
    pub open spec fn agrees(self, expected: StepView) -> bool {
        match expected {
            StepView::Continue(build) => self matches BuildStep::Continue(next) && next@ == build,
            StepView::Finished(image) => self matches BuildStep::Finished(done) && done@ == image,
            StepView::Failed(error) => self matches BuildStep::Failed(reported) && reported
                == error,
            StepView::FailedIo => self matches BuildStep::Failed(reported) && reported is Io,
        }
    }
}

impl View for ImageBuild {
    type V = BuildView;

    closed spec fn view(&self) -> BuildView {
        match self.stage {
            Stage::Dirs { id, working_dir, mount_dir, dir_step: step } => BuildView {
                image_builder_dir: self.builder.dir(),
                fs: RootFsView { id: id@, working_dir: working_dir@, mount_dir: mount_dir@ },
                base_fs_path: self.base_fs_path@,
                commands: command_views(self.commands@),
                phase: BuildPhase::Dirs(step),
                kernel: Seq::empty(),
            },
            Stage::Unmounted { image: rootfs, image_step: step } => BuildView {
                image_builder_dir: self.builder.dir(),
                fs: rootfs@,
                base_fs_path: self.base_fs_path@,
                commands: command_views(self.commands@),
                phase: BuildPhase::Unmounted(step),
                kernel: Seq::empty(),
            },
            Stage::Mounted { mounted: rootfs, mounted_step: step, kernel } => BuildView {
                image_builder_dir: self.builder.dir(),
                fs: rootfs@,
                base_fs_path: self.base_fs_path@,
                commands: command_views(self.commands@),
                phase: BuildPhase::Mounted(step),
                kernel: kernel@,
            },
        }
    }
}

/// The text of a build identifier: 32 lower-case hexadecimal digits in
/// groups of 8, 4, 4, 4 and 12, with a hyphen between the groups.
pub open spec fn is_build_id(id: Seq<char>) -> bool {
    &&& id.len() == 36
    &&& forall|i: int|
        0 <= i < 36 ==> if i == 8 || i == 13 || i == 18 || i == 23 {
            id[i] == '-'
        } else {
            ('0' <= #[trigger] id[i] <= '9') || ('a' <= id[i] <= 'f')
        }
}

/// A fresh build identifier: `uuid::Uuid::new_v4`, as text.
///
/// The identifier is random, so nothing is said of which one comes back, only
/// of its form: the text of a `Uuid` is its hyphenated lower-case form. The
/// call panics where the operating system cannot supply random bytes.
#[verifier::external_body]
fn fresh_build_id() -> (id: String)
    ensures
        is_build_id(id@),
{
    uuid::Uuid::new_v4().to_string()
}

/// The image builder: it knows the directory under which every build works.
#[derive(Debug)]
pub struct ImageBuilder {
    image_builder_dir: String,
}

impl Default for ImageBuilder {
    /// The builder that works under `/var/lib/fc-man/image-builder`.
    fn default() -> (builder: Self)
        ensures
            builder.dir() == spec_join(VAR_DIR@, IMAGE_BUILDER@),
    {
        ImageBuilder { image_builder_dir: join(VAR_DIR, IMAGE_BUILDER) }
    }
}

impl ImageBuilder {
    /// The directory under which every build works.
    pub closed spec fn dir(&self) -> Seq<char> {
        self.image_builder_dir@
    }

    /// The working directory of build `id`.
    pub open spec fn working_dir(&self, id: Seq<char>) -> Seq<char> {
        spec_join(self.dir(), id)
    }

    /// The mount directory, which all builds share.
    pub open spec fn mount_dir(&self) -> Seq<char> {
        spec_join(self.dir(), MOUNT@)
    }

    /// A build of this builder at its start.
    pub open spec fn start(
        &self,
        id: Seq<char>,
        base_fs_path: Seq<char>,
        commands: Seq<SetupCommandView>,
    ) -> BuildView {
        BuildView {
            image_builder_dir: self.dir(),
            fs: RootFsView { id, working_dir: self.working_dir(id), mount_dir: self.mount_dir() },
            base_fs_path,
            commands,
            phase: BuildPhase::Dirs(DirStep::ProbeRoot),
            kernel: Seq::empty(),
        }
    }

    /// The builder that works under `image_builder_dir`.
    pub fn new(image_builder_dir: &str) -> (builder: Self)
        ensures
            builder.dir() == image_builder_dir@,
    {
        ImageBuilder { image_builder_dir: image_builder_dir.to_owned() }
    }

    /// The working directory of build `id`: the directory named `id` under
    /// the builder's directory.
    pub fn get_working_dir(&self, id: &str) -> (path: String)
        ensures
            path@ == self.working_dir(id@),
    {
        join(self.image_builder_dir.as_str(), id)
    }

    /// The mount directory: the directory named `mount` under the builder's
    /// directory, whatever the build.
    pub fn get_mount_dir(&self) -> (path: String)
        ensures
            path@ == self.mount_dir(),
    {
        join(self.image_builder_dir.as_str(), MOUNT)
    }

    /// The operation of one step of the directory setup: a probe of the
    /// builder's directory, the working directory or the mount directory, or
    /// the creation of one of them.
    pub fn setup_dirs(&self, working_dir: &str, mount_dir: &str, step: DirStep) -> (request:
        HostAction)
        ensures
            request@ == if step.is_probe() {
                HostActionView::ProbeDir {
                    path: match step {
                        DirStep::ProbeRoot => self.dir(),
                        DirStep::ProbeWorking => working_dir@,
                        _ => mount_dir@,
                    },
                }
            } else {
                HostActionView::CreateDirAll {
                    path: match step {
                        DirStep::CreateRoot => self.dir(),
                        DirStep::CreateWorking => working_dir@,
                        _ => mount_dir@,
                    },
                }
            },
    {
        match step {
            DirStep::ProbeRoot => HostAction::ProbeDir { path: self.image_builder_dir.clone() },
            DirStep::CreateRoot => HostAction::CreateDirAll {
                path: self.image_builder_dir.clone(),
            },
            DirStep::ProbeWorking => HostAction::ProbeDir { path: working_dir.to_owned() },
            DirStep::CreateWorking => HostAction::CreateDirAll { path: working_dir.to_owned() },
            DirStep::ProbeMount => HostAction::ProbeDir { path: mount_dir.to_owned() },
            DirStep::CreateMount => HostAction::CreateDirAll { path: mount_dir.to_owned() },
        }
    }

    /// Starts the build `id` from the base archive at `base_fs_path`, to be
    /// customized with `commands`.
    pub fn begin_build(&self, id: &str, base_fs_path: &str, commands: Vec<SetupCommand>) -> (build:
        ImageBuild)
        ensures
            build@ == self.start(id@, base_fs_path@, command_views(commands@)),
    {
        ImageBuild {
            builder: ImageBuilder { image_builder_dir: self.image_builder_dir.clone() },
            base_fs_path: base_fs_path.to_owned(),
            commands,
            stage: Stage::Dirs {
                id: id.to_owned(),
                working_dir: self.get_working_dir(id),
                mount_dir: self.get_mount_dir(),
                dir_step: DirStep::ProbeRoot,
            },
        }
    }

    /// Starts a build from the base archive at `base_fs_path`, under a fresh
    /// identifier, to be customized as an Alpine guest.
    pub fn build_image_from_base(&self, base_fs_path: &str) -> (build: ImageBuild)
        ensures
            is_build_id(build@.fs.id),
            build@ == self.start(build@.fs.id, base_fs_path@, alpine_setup_commands()),
    {
        let id = fresh_build_id();
        self.begin_build(id.as_str(), base_fs_path, get_alpine_setup_commands())
    }
}

impl ImageBuild {
    /// The identifier of the build.
    pub fn id(&self) -> (id: &str)
        ensures
            id@ == self@.fs.id,
    {
        match &self.stage {
            Stage::Dirs { id, .. } => id.as_str(),
            Stage::Unmounted { image, .. } => image.id(),
            Stage::Mounted { mounted, .. } => mounted.id(),
        }
    }

    /// Where the build stands.
    pub fn phase(&self) -> (phase: BuildPhase)
        ensures
            phase == self@.phase,
    {
        match &self.stage {
            Stage::Dirs { dir_step: step, .. } => BuildPhase::Dirs(*step),
            Stage::Unmounted { image_step: step, .. } => BuildPhase::Unmounted(*step),
            Stage::Mounted { mounted_step: step, .. } => BuildPhase::Mounted(*step),
        }
    }

    /// The operation that the host has to perform now.
    pub fn pending(&self) -> (request: HostAction)
        ensures
            request@ == self@.pending(),
    {
        match &self.stage {
            Stage::Dirs { working_dir, mount_dir, dir_step: step, .. } => self.builder.setup_dirs(
                working_dir.as_str(),
                mount_dir.as_str(),
                *step,
            ),
            Stage::Unmounted { image: rootfs, image_step: step } => match step {
                UnmountedStep::CreateFile => rootfs.allocate_file(IMAGE_SIZE).0,
                UnmountedStep::SizeFile => rootfs.allocate_file(IMAGE_SIZE).1,
                UnmountedStep::Format => rootfs.format(),
                UnmountedStep::Mount => rootfs.mount_request(),
            },
            Stage::Mounted { mounted: rootfs, mounted_step: step, kernel } => match step {
                MountedStep::Unpack => rootfs.copy_from_base_fs(self.base_fs_path.as_str()).0,
                MountedStep::CopyResolver => rootfs.copy_from_base_fs(
                    self.base_fs_path.as_str(),
                ).1,
                MountedStep::Customize => rootfs.execute_setup(copy_commands(&self.commands)),
                MountedStep::CopyInitramfs => rootfs.extract_initramfs().0,
                MountedStep::ReadKernel => rootfs.read_vmlinuz(),
                MountedStep::WriteKernel => rootfs.write_vmlinux(copy_bytes(kernel)),
                MountedStep::Unmount => rootfs.unmount_request(),
            },
        }
    }

    /// Takes the host's account of the pending operation and moves on.
    ///
    /// The result is the step that [`spec_next`] describes. Where that step
    /// is an I/O failure that was not handed in as one, the error is the
    /// decompressor's, or the one that stands for the error number.
    pub fn advance(self, event: HostEvent) -> (step: BuildStep)
        ensures
            step.agrees(spec_next(self@, event@)),
    {
        let ImageBuild { builder, base_fs_path, commands, stage } = self;
        match event {
            HostEvent::IoFailed(error) => BuildStep::Failed(ImageBuilderError::Io(error)),
            HostEvent::SyscallFailed(errno) => match stage {
                Stage::Unmounted { image_step: UnmountedStep::SizeFile, .. } => BuildStep::Failed(
                    ImageBuilderError::Io(io_error_of(errno)),
                ),
                _ => BuildStep::Failed(ImageBuilderError::Syscall(errno)),
            },
            HostEvent::Probed(exists) => match stage {
                Stage::Dirs { id, working_dir, mount_dir, dir_step: step } => {
                    let stage = if !step.probes() {
                        Stage::Dirs { id, working_dir, mount_dir, dir_step: step }
                    } else if exists {
                        dirs_ready(id, working_dir, mount_dir, step)
                    } else {
                        Stage::Dirs { id, working_dir, mount_dir, dir_step: step.creating() }
                    };
                    BuildStep::Continue(
                        ImageBuild { builder, base_fs_path, commands, stage },
                    )
                },
                stage => BuildStep::Continue(
                    ImageBuild { builder, base_fs_path, commands, stage },
                ),
            },
            HostEvent::Done => {
                let stage = match stage {
                    Stage::Dirs { id, working_dir, mount_dir, dir_step: step } => if step.probes() {
                        Stage::Dirs { id, working_dir, mount_dir, dir_step: step }
                    } else {
                        dirs_ready(id, working_dir, mount_dir, step)
                    },
                    Stage::Unmounted { image: rootfs, image_step: step } => match step {
                        UnmountedStep::CreateFile => Stage::Unmounted {
                            image: rootfs,
                            image_step: UnmountedStep::SizeFile,
                        },
                        UnmountedStep::SizeFile => Stage::Unmounted {
                            image: rootfs,
                            image_step: UnmountedStep::Format,
                        },
                        step => Stage::Unmounted { image: rootfs, image_step: step },
                    },
                    Stage::Mounted { mounted: rootfs, mounted_step: step, kernel } => match step {
                        MountedStep::Unpack => Stage::Mounted {
                            mounted: rootfs,
                            mounted_step: MountedStep::CopyResolver,
                            kernel,
                        },
                        MountedStep::CopyResolver => Stage::Mounted {
                            mounted: rootfs,
                            mounted_step: MountedStep::Customize,
                            kernel,
                        },
                        MountedStep::Customize => Stage::Mounted {
                            mounted: rootfs,
                            mounted_step: MountedStep::CopyInitramfs,
                            kernel,
                        },
                        MountedStep::CopyInitramfs => Stage::Mounted {
                            mounted: rootfs,
                            mounted_step: MountedStep::ReadKernel,
                            kernel,
                        },
                        MountedStep::WriteKernel => Stage::Mounted {
                            mounted: rootfs,
                            mounted_step: MountedStep::Unmount,
                            kernel: Vec::new(),
                        },
                        step => Stage::Mounted { mounted: rootfs, mounted_step: step, kernel },
                    },
                };
                BuildStep::Continue(ImageBuild { builder, base_fs_path, commands, stage })
            },
            HostEvent::ToolRan(output) => match stage {
                Stage::Unmounted {
                    image: rootfs,
                    image_step: UnmountedStep::Format,
                } => BuildStep::Continue(
                    ImageBuild {
                        builder,
                        base_fs_path,
                        commands,
                        stage: Stage::Unmounted { image: rootfs, image_step: UnmountedStep::Mount },
                    },
                ),
                Stage::Unmounted {
                    image: rootfs,
                    image_step: UnmountedStep::Mount,
                } => BuildStep::Continue(
                    ImageBuild {
                        builder,
                        base_fs_path,
                        commands,
                        stage: Stage::Mounted {
                            mounted: rootfs.mount(output),
                            mounted_step: MountedStep::Unpack,
                            kernel: Vec::new(),
                        },
                    },
                ),
                Stage::Mounted { mounted: rootfs, mounted_step: MountedStep::Unmount, kernel } => {
                    let image = Image {
                        rootfs_path: rootfs.rootfs_file().to_owned(),
                        initrd_path: rootfs.extract_initramfs().1,
                        kernel_path: rootfs.vmlinux_path(),
                    };
                    rootfs.unmount(output);
                    BuildStep::Finished(image)
                },
                stage => BuildStep::Continue(
                    ImageBuild { builder, base_fs_path, commands, stage },
                ),
            },
            HostEvent::FileRead(vmlinuz) => match stage {
                Stage::Mounted {
                    mounted: rootfs,
                    mounted_step: MountedStep::ReadKernel,
                    kernel,
                } => {
                    match rootfs.extract_and_decompress_vmlinuz(vmlinuz.as_slice()) {
                        Ok((HostAction::WriteNewFile { contents, .. }, _)) => BuildStep::Continue(
                            ImageBuild {
                                builder,
                                base_fs_path,
                                commands,
                                stage: Stage::Mounted {
                                    mounted: rootfs,
                                    mounted_step: MountedStep::WriteKernel,
                                    kernel: contents,
                                },
                            },
                        ),
                        Ok(_) => BuildStep::Continue(
                            ImageBuild {
                                builder,
                                base_fs_path,
                                commands,
                                stage: Stage::Mounted {
                                    mounted: rootfs,
                                    mounted_step: MountedStep::ReadKernel,
                                    kernel,
                                },
                            },
                        ),
                        Err(error) => BuildStep::Failed(error),
                    }
                },
                stage => BuildStep::Continue(
                    ImageBuild { builder, base_fs_path, commands, stage },
                ),
            },
        }
    }
}

/// The stage after the directory that `step` is about is known to exist: the
/// probe of the next directory, or, after the last one, the image at its
/// first step.
fn dirs_ready(id: String, working_dir: String, mount_dir: String, step: DirStep) -> (stage: Stage)
    ensures
        match step.onward() {
            Some(probe) => stage == (Stage::Dirs { id, working_dir, mount_dir, dir_step: probe }),
            None => stage matches Stage::Unmounted { image: rootfs, image_step: first }
                && first == UnmountedStep::CreateFile
                && rootfs@ == (RootFsView {
                    id: id@,
                    working_dir: working_dir@,
                    mount_dir: mount_dir@,
                }),
        },
{
    match step.next_probe() {
        Some(probe) => Stage::Dirs { id, working_dir, mount_dir, dir_step: probe },
        None => Stage::Unmounted {
            image: ImageRootFs::new(id.as_str(), working_dir.as_str(), mount_dir.as_str()),
            image_step: UnmountedStep::CreateFile,
        },
    }
}

} // verus!
