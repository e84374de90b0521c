//! What holds of every image build.
//!
//! Each statement is about [`spec_next`], the step that a build takes, or
//! about [`spec_run`], a run of such steps, and so about every build that
//! runs, whatever its host answers.

use vstd::prelude::*;
use crate::build_phases::{
    spec_next,
    spec_run,
    BuildPhase,
    BuildView,
    DirStep,
    MountedStep,
    StepView,
    UnmountedStep,
    IMAGE_SIZE,
};
use crate::error::ImageBuilderError;
use crate::host::HostEventView;
use crate::image_builder::{is_build_id, ImageBuilder};
use crate::kernel::spec_extract_kernel;

verus! {

/// A run with one more event is the run, and then the step on that event.
pub proof fn lemma_run_one_more(build: BuildView, events: Seq<HostEventView>, event: HostEventView)
    ensures
        spec_run(build, events.push(event)) == match spec_run(build, events) {
            StepView::Continue(reached) => spec_next(reached, event),
            ended => ended,
        },
{
    assert(events.push(event).drop_last() =~= events);
}

/// A run of two parts is the run of the first, and from where that led, the
/// run of the second.
pub proof fn lemma_run_in_two_parts(
    build: BuildView,
    first: Seq<HostEventView>,
    second: Seq<HostEventView>,
)
    ensures
        spec_run(build, first + second) == match spec_run(build, first) {
            StepView::Continue(reached) => spec_run(reached, second),
            ended => ended,
        },
    decreases second.len(),
{
    if second.len() == 0 {
        assert(first + second =~= first);
    } else {
        assert((first + second).drop_last() =~= first + second.drop_last());
        lemma_run_in_two_parts(build, first, second.drop_last());
    }
}

/// A step never changes the layout or the inputs of a build, and never goes
/// back: the build stays as it is, moves to the next phase, or, where a
/// probe finds its directory, passes over that directory's creation.
pub proof fn lemma_steps_keep_order(build: BuildView, event: HostEventView)
    ensures
        spec_next(build, event) matches StepView::Continue(next) ==> {
            &&& next.image_builder_dir == build.image_builder_dir
            &&& next.fs == build.fs
            &&& next.base_fs_path == build.base_fs_path
            &&& next.commands == build.commands
            &&& build.phase.rank() <= next.phase.rank() <= build.phase.rank() + 2
            &&& next.phase == build.phase ==> next == build
            &&& next.phase.rank() == build.phase.rank() + 2 ==> (build.phase matches
            BuildPhase::Dirs(step) && step.is_probe() && event == HostEventView::Probed(true))
        },
{
}

/// A mounted image comes from mounting and from nothing else: a step leads
/// into the mounted phases only from the mount step, and only when the mount
/// tool has run.
pub proof fn lemma_mounted_only_by_mount(build: BuildView, event: HostEventView)
    requires
        !(build.phase is Mounted),
        spec_next(build, event) matches StepView::Continue(next) && next.phase is Mounted,
    ensures
        build.phase == BuildPhase::Unmounted(UnmountedStep::Mount),
        event is ToolRan,
        spec_next(build, event) == StepView::Continue(
            build.at(BuildPhase::Mounted(MountedStep::Unpack)),
        ),
{
}

/// There is no way back from mounted: a build that goes on with a mounted
/// image still has it mounted.
pub proof fn lemma_mounted_stays_mounted(build: BuildView, event: HostEventView)
    requires
        build.phase is Mounted,
    ensures
        spec_next(build, event) matches StepView::Continue(next) ==> next.phase is Mounted,
{
}

/// Unmounting is the end: once the unmount tool has run the build is finished
/// and hands over its image, and nothing but that finishes a build.
pub proof fn lemma_unmount_is_terminal(build: BuildView, event: HostEventView)
    ensures
        spec_next(build, event) is Finished <==> build.phase == BuildPhase::Mounted(
            MountedStep::Unmount,
        ) && event is ToolRan,
        spec_next(build, event) is Finished ==> spec_next(build, event) == StepView::Finished(
            build.artifact(),
        ),
        build.phase == BuildPhase::Mounted(MountedStep::Unmount) ==> (spec_next(
            build,
            event,
        ) matches StepView::Continue(next) ==> (next == build)),
{
}

/// What is asked of the host follows the status of the image. Before there
/// is an image, only directories are probed and created. On the unmounted
/// image, only allocation, formatting and mounting are asked for. On the
/// mounted image, only filling, customization, the two extractions and
/// unmounting are.
pub proof fn lemma_operations_follow_status(build: BuildView)
    ensures
        build.phase is Dirs ==> build.pending() is ProbeDir || build.pending() is CreateDirAll,
        build.phase is Unmounted ==> {
            ||| build.pending() == build.fs.create_request()
            ||| build.pending() == build.fs.size_request(IMAGE_SIZE)
            ||| build.pending() == build.fs.format_request()
            ||| build.pending() == build.fs.mount_request()
        },
        build.phase is Mounted ==> {
            ||| build.pending() == build.fs.unpack_request(build.base_fs_path)
            ||| build.pending() == build.fs.resolver_request()
            ||| build.pending() == build.fs.setup_request(build.commands)
            ||| build.pending() == build.fs.initramfs_request()
            ||| build.pending() == build.fs.vmlinuz_request()
            ||| build.pending() == build.fs.vmlinux_request(build.kernel)
            ||| build.pending() == build.fs.unmount_request()
        },
        build.pending() is UnpackArchive || build.pending() is CopyFile || build.pending()
            is RunInChroot || build.pending() is ReadFile || build.pending() is WriteNewFile
            ==> build.phase is Mounted,
        build.pending() is CreateNewFile || build.pending() is Truncate ==> build.phase
            is Unmounted,
{
}

/// A failure ends the build at once, whatever the phase: no further
/// operation is asked for, and no image is handed over. An I/O failure ends
/// it with the error that the host reported. A failed system call ends it
/// with the error number that the host reported, except where the image file
/// was being sized: that ends it with an I/O error. Nothing else ends a
/// build early but a kernel image that yields no kernel.
pub proof fn lemma_failure_ends_build(build: BuildView, event: HostEventView)
    ensures
        event matches HostEventView::IoFailed(error) ==> spec_next(build, event)
            == StepView::Failed(ImageBuilderError::Io(error)),
        event matches HostEventView::SyscallFailed(errno) ==> spec_next(build, event) == (if
            build.phase == BuildPhase::Unmounted(UnmountedStep::SizeFile) {
            StepView::FailedIo
        } else {
            StepView::Failed(ImageBuilderError::Syscall(errno))
        }),
        spec_next(build, event) is Failed || spec_next(build, event) is FailedIo ==> {
            ||| event is IoFailed
            ||| event is SyscallFailed
            ||| build.phase == BuildPhase::Mounted(MountedStep::ReadKernel) && event is FileRead
        },
{
}

/// What a tool reported is not consulted: once it was launched the build
/// takes the same step, whatever its exit code and whatever it wrote.
pub proof fn lemma_tool_report_is_not_consulted(
    build: BuildView,
    first: HostEventView,
    second: HostEventView,
)
    requires
        first is ToolRan,
        second is ToolRan,
    ensures
        spec_next(build, first) == spec_next(build, second),
{
}

/// A kernel image in which no compressed stream is located ends the build
/// with `MissingGzipHeader`, and only that does.
pub proof fn lemma_missing_header_ends_build(build: BuildView, event: HostEventView)
    ensures
        spec_next(build, event) == StepView::Failed(ImageBuilderError::MissingGzipHeader) <==> {
            &&& build.phase == BuildPhase::Mounted(MountedStep::ReadKernel)
            &&& event matches HostEventView::FileRead(vmlinuz)
            &&& spec_extract_kernel(vmlinuz) is MissingHeader
        },
{
}

/// A directory that exists is accepted: the probe that finds it moves the
/// build on without asking for its creation, and cannot fail.
pub proof fn lemma_existing_dir_is_accepted(build: BuildView, step: DirStep)
    requires
        build.phase == BuildPhase::Dirs(step),
        step.is_probe(),
    ensures
        spec_next(build, HostEventView::Probed(true)) == StepView::Continue(build.dir_ready(step)),
        !(build.dir_ready(step).pending() is CreateDirAll),
{
}

/// What a host answers while one directory is made sure of: that it is
/// there, or that it is not and then that it was created.
pub open spec fn dir_events(there: bool) -> Seq<HostEventView> {
    if there {
        seq![HostEventView::Probed(true)]
    } else {
        seq![HostEventView::Probed(false), HostEventView::Done]
    }
}

/// What a host answers on which every operation succeeds: for each of the
/// three directories whether it was there, and the contents of the boot
/// kernel image.
pub open spec fn smooth_events(
    root_there: bool,
    working_there: bool,
    mount_there: bool,
    vmlinuz: Seq<u8>,
) -> Seq<HostEventView> {
    let tool_ran = HostEventView::ToolRan { status: Some(0), stderr: Seq::empty() };
    dir_events(root_there) + dir_events(working_there) + dir_events(mount_there) + seq![
        HostEventView::Done,
        HostEventView::Done,
        tool_ran,
        tool_ran,
        HostEventView::Done,
        HostEventView::Done,
        HostEventView::Done,
        HostEventView::Done,
        HostEventView::FileRead(vmlinuz),
        HostEventView::Done,
        tool_ran,
    ]
}

/// Making sure of one directory, whether it is there or not, leads to the
/// next directory or, after the last, to the image.
pub proof fn lemma_dir_is_made_sure_of(build: BuildView, step: DirStep, there: bool)
    requires
        build.phase == BuildPhase::Dirs(step),
        step.is_probe(),
    ensures
        spec_run(build, dir_events(there)) == StepView::Continue(build.dir_ready(step)),
{
    let none = Seq::<HostEventView>::empty();
    if there {
        assert(dir_events(there) =~= none.push(HostEventView::Probed(true)));
        lemma_run_one_more(build, none, HostEventView::Probed(true));
    } else {
        let probed = none.push(HostEventView::Probed(false));
        assert(dir_events(there) =~= probed.push(HostEventView::Done));
        lemma_run_one_more(build, none, HostEventView::Probed(false));
        lemma_run_one_more(build, probed, HostEventView::Done);
    }
}

/// Setting up directories that are all there creates nothing: three probes,
/// and the build is at its first step on the image. This is what a second
/// setup of the same layout meets, so it cannot fail.
pub proof fn lemma_setup_of_existing_dirs(build: BuildView)
    requires
        build.phase == BuildPhase::Dirs(DirStep::ProbeRoot),
    ensures
        spec_run(build, dir_events(true) + dir_events(true) + dir_events(true))
            == StepView::Continue(build.at(BuildPhase::Unmounted(UnmountedStep::CreateFile))),
        dir_events(true) + dir_events(true) + dir_events(true) == seq![
            HostEventView::Probed(true),
            HostEventView::Probed(true),
            HostEventView::Probed(true),
        ],
{
    lemma_setup_of_dirs(build, true, true, true);
    assert(dir_events(true) + dir_events(true) + dir_events(true) =~= seq![
        HostEventView::Probed(true),
        HostEventView::Probed(true),
        HostEventView::Probed(true),
    ]);
}

/// Setting up the three directories, whichever of them are there, leads to
/// the first step on the image.
pub proof fn lemma_setup_of_dirs(
    build: BuildView,
    root_there: bool,
    working_there: bool,
    mount_there: bool,
)
    requires
        build.phase == BuildPhase::Dirs(DirStep::ProbeRoot),
    ensures
        spec_run(
            build,
            dir_events(root_there) + dir_events(working_there) + dir_events(mount_there),
        ) == StepView::Continue(build.at(BuildPhase::Unmounted(UnmountedStep::CreateFile))),
{
    let second = build.at(BuildPhase::Dirs(DirStep::ProbeWorking));
    let third = build.at(BuildPhase::Dirs(DirStep::ProbeMount));
    lemma_dir_is_made_sure_of(build, DirStep::ProbeRoot, root_there);
    lemma_dir_is_made_sure_of(second, DirStep::ProbeWorking, working_there);
    lemma_dir_is_made_sure_of(third, DirStep::ProbeMount, mount_there);
    lemma_run_in_two_parts(build, dir_events(root_there), dir_events(working_there));
    lemma_run_in_two_parts(
        build,
        dir_events(root_there) + dir_events(working_there),
        dir_events(mount_there),
    );
}

/// What a host answers during the setup of directories, where the
/// directories in `existing` are there and every creation succeeds.
pub open spec fn setup_events(build: BuildView, existing: Set<Seq<char>>) -> Seq<HostEventView> {
    dir_events(existing.contains(build.image_builder_dir)) + dir_events(
        existing.contains(build.fs.working_dir),
    ) + dir_events(existing.contains(build.fs.mount_dir))
}

/// The directories that are there after such a setup.
pub open spec fn after_setup(build: BuildView, existing: Set<Seq<char>>) -> Set<Seq<char>> {
    existing.insert(build.image_builder_dir).insert(build.fs.working_dir).insert(
        build.fs.mount_dir,
    )
}

/// Setting up the same layout twice: the second setup finds what the first
/// one left, creates nothing, and leads to the first step on the image as the
/// first one did.
pub proof fn lemma_second_setup_creates_nothing(build: BuildView, existing: Set<Seq<char>>)
    requires
        build.phase == BuildPhase::Dirs(DirStep::ProbeRoot),
    ensures
        spec_run(build, setup_events(build, existing)) == StepView::Continue(
            build.at(BuildPhase::Unmounted(UnmountedStep::CreateFile)),
        ),
        setup_events(build, after_setup(build, existing)) == seq![
            HostEventView::Probed(true),
            HostEventView::Probed(true),
            HostEventView::Probed(true),
        ],
        spec_run(build, setup_events(build, after_setup(build, existing))) == StepView::Continue(
            build.at(BuildPhase::Unmounted(UnmountedStep::CreateFile)),
        ),
{
    lemma_setup_of_dirs(
        build,
        existing.contains(build.image_builder_dir),
        existing.contains(build.fs.working_dir),
        existing.contains(build.fs.mount_dir),
    );
    lemma_setup_of_existing_dirs(build);
}

/// A build on whose host every operation succeeds, and whose boot kernel
/// image yields a kernel, finishes, and hands over the image file, the
/// initial ramdisk and the kernel in its working directory. On the way it
/// asks for exactly that kernel to be written.
pub proof fn lemma_build_finishes(
    build: BuildView,
    root_there: bool,
    working_there: bool,
    mount_there: bool,
    vmlinuz: Seq<u8>,
)
    requires
        build.phase == BuildPhase::Dirs(DirStep::ProbeRoot),
        spec_extract_kernel(vmlinuz) is Kernel,
    ensures
        spec_run(build, smooth_events(root_there, working_there, mount_there, vmlinuz))
            == StepView::Finished(build.artifact()),
        spec_next(
            build.at(BuildPhase::Mounted(MountedStep::ReadKernel)),
            HostEventView::FileRead(vmlinuz),
        ) matches StepView::Continue(writing) && writing.pending() == build.fs.vmlinux_request(
            spec_extract_kernel(vmlinuz)->Kernel_0,
        ),
{
    let done = HostEventView::Done;
    let tool_ran = HostEventView::ToolRan { status: Some(0), stderr: Seq::empty() };
    let read = HostEventView::FileRead(vmlinuz);
    let dirs = dir_events(root_there) + dir_events(working_there) + dir_events(mount_there);
    lemma_setup_of_dirs(build, root_there, working_there, mount_there);
    let image = build.at(BuildPhase::Unmounted(UnmountedStep::CreateFile));

    let e0 = Seq::<HostEventView>::empty();
    let e1 = e0.push(done);
    let e2 = e1.push(done);
    let e3 = e2.push(tool_ran);
    let e4 = e3.push(tool_ran);
    let e5 = e4.push(done);
    let e6 = e5.push(done);
    let e7 = e6.push(done);
    let e8 = e7.push(done);
    let e9 = e8.push(read);
    let e10 = e9.push(done);
    let e11 = e10.push(tool_ran);
    lemma_run_one_more(image, e0, done);
    lemma_run_one_more(image, e1, done);
    lemma_run_one_more(image, e2, tool_ran);
    lemma_run_one_more(image, e3, tool_ran);
    lemma_run_one_more(image, e4, done);
    lemma_run_one_more(image, e5, done);
    lemma_run_one_more(image, e6, done);
    lemma_run_one_more(image, e7, done);
    assert(spec_run(image, e8) == StepView::Continue(
        build.at(BuildPhase::Mounted(MountedStep::ReadKernel)),
    ));
    lemma_run_one_more(image, e8, read);
    lemma_run_one_more(image, e9, done);
    let writing = BuildView {
        phase: BuildPhase::Mounted(MountedStep::WriteKernel),
        kernel: spec_extract_kernel(vmlinuz)->Kernel_0,
        ..build
    };
    assert(spec_run(image, e9) == StepView::Continue(writing));
    let unmounting = writing.cleared_at(BuildPhase::Mounted(MountedStep::Unmount));
    assert(spec_run(image, e10) == StepView::Continue(unmounting));
    assert(unmounting.artifact() == build.artifact());
    lemma_run_one_more(image, e10, tool_ran);
    assert(smooth_events(root_there, working_there, mount_there, vmlinuz) =~= dirs + e11);
    lemma_run_in_two_parts(build, dirs, e11);
}

/// The working directory of a build is never the shared mount directory.
pub proof fn lemma_working_dir_is_not_mount_dir(builder: ImageBuilder, id: Seq<char>)
    requires
        is_build_id(id),
    ensures
        builder.working_dir(id) != builder.mount_dir(),
{
    reveal_strlit("mount");
    assert('0' <= id[0] <= '9' || 'a' <= id[0] <= 'f');
    assert(builder.working_dir(id).len() != builder.mount_dir().len());
}

} // verus!
