use fc_man::error::ImageBuilderError;
use fc_man::host::{HostAction, HostEvent, ToolOutput};
use fc_man::build_phases::{BuildPhase, DirStep, MountedStep, UnmountedStep, IMAGE_SIZE};
use fc_man::image_builder::{BuildStep, Image, ImageBuild, ImageBuilder};
use fc_man::kernel::GZIP_MAGIC_NUM;
use fc_man::utils::{get_alpine_setup_commands, SetupCommand};
use nix::errno::Errno;
use std::io::{Error, ErrorKind, Write};

fn path(s: &str) -> String {
    s.to_string()
}

fn tool_ran() -> HostEvent {
    HostEvent::ToolRan(ToolOutput { status: Some(0), stderr: Vec::new() })
}

fn io_failed(kind: ErrorKind) -> HostEvent {
    HostEvent::IoFailed(Error::from(kind))
}

fn packed(data: &[u8]) -> Vec<u8> {
    let mut encoder = flate2::write::GzEncoder::new(Vec::new(), flate2::Compression::fast());
    encoder.write_all(data).unwrap();
    encoder.finish().unwrap()
}

fn boot_image(kernel: &[u8]) -> Vec<u8> {
    let mut image = vec![0x00; 2000];
    image.extend(packed(kernel));
    image
}

fn started() -> ImageBuild {
    let commands = get_alpine_setup_commands();
    ImageBuilder::new("/srv/images").begin_build("b1", "/tmp/base.tar.gz", commands)
}

fn finished(step: BuildStep) -> Image {
    match step {
        BuildStep::Finished(image) => image,
        other => panic!("not finished: {:?}", other),
    }
}

fn go_on(build: ImageBuild, event: HostEvent) -> ImageBuild {
    match build.advance(event) {
        BuildStep::Continue(next) => next,
        other => panic!("the build ended: {:?}", other),
    }
}

/// The success that answers the pending operation of a build with all
/// directories present and `kernel` in the boot image.
fn answer(build: &ImageBuild, kernel: &[u8]) -> HostEvent {
    match build.pending() {
        HostAction::ProbeDir { .. } => HostEvent::Probed(true),
        HostAction::RunTool { .. } => tool_ran(),
        HostAction::ReadFile { .. } => HostEvent::FileRead(boot_image(kernel)),
        _ => HostEvent::Done,
    }
}

fn brought_to(phase: BuildPhase) -> ImageBuild {
    let mut build = started();
    while build.phase() != phase {
        let event = answer(&build, b"kernel");
        build = go_on(build, event);
    }
    build
}

fn all_phases() -> Vec<BuildPhase> {
    vec![
        BuildPhase::Dirs(DirStep::ProbeRoot),
        BuildPhase::Dirs(DirStep::ProbeWorking),
        BuildPhase::Dirs(DirStep::ProbeMount),
        BuildPhase::Unmounted(UnmountedStep::CreateFile),
        BuildPhase::Unmounted(UnmountedStep::SizeFile),
        BuildPhase::Unmounted(UnmountedStep::Format),
        BuildPhase::Unmounted(UnmountedStep::Mount),
        BuildPhase::Mounted(MountedStep::Unpack),
        BuildPhase::Mounted(MountedStep::CopyResolver),
        BuildPhase::Mounted(MountedStep::Customize),
        BuildPhase::Mounted(MountedStep::CopyInitramfs),
        BuildPhase::Mounted(MountedStep::ReadKernel),
        BuildPhase::Mounted(MountedStep::WriteKernel),
        BuildPhase::Mounted(MountedStep::Unmount),
    ]
}

#[test]
fn build_runs_its_stages_in_order() {
    let kernel = b"the kernel, decompressed".to_vec();
    let mut build = started();
    assert_eq!(build.phase(), BuildPhase::Dirs(DirStep::ProbeRoot));

    assert_eq!(build.pending(), HostAction::ProbeDir { path: path("/srv/images") });
    build = go_on(build, HostEvent::Probed(false));
    assert_eq!(build.pending(), HostAction::CreateDirAll { path: path("/srv/images") });
    build = go_on(build, HostEvent::Done);
    assert_eq!(build.pending(), HostAction::ProbeDir { path: path("/srv/images/b1") });
    build = go_on(build, HostEvent::Probed(false));
    assert_eq!(build.pending(), HostAction::CreateDirAll { path: path("/srv/images/b1") });
    build = go_on(build, HostEvent::Done);
    assert_eq!(build.pending(), HostAction::ProbeDir { path: path("/srv/images/mount") });
    build = go_on(build, HostEvent::Probed(false));
    assert_eq!(build.pending(), HostAction::CreateDirAll { path: path("/srv/images/mount") });
    build = go_on(build, HostEvent::Done);

    assert_eq!(build.phase(), BuildPhase::Unmounted(UnmountedStep::CreateFile));
    assert_eq!(
        build.pending(),
        HostAction::CreateNewFile { path: path("/srv/images/b1/rootfs.ext4") }
    );
    build = go_on(build, HostEvent::Done);
    assert_eq!(
        build.pending(),
        HostAction::Truncate { path: path("/srv/images/b1/rootfs.ext4"), size: 268435456 }
    );
    build = go_on(build, HostEvent::Done);
    assert_eq!(
        build.pending(),
        HostAction::RunTool {
            program: path("mkfs.ext4"),
            args: vec![path("/srv/images/b1/rootfs.ext4")],
        }
    );
    build = go_on(build, tool_ran());
    assert_eq!(
        build.pending(),
        HostAction::RunTool {
            program: path("mount"),
            args: vec![path("/srv/images/b1/rootfs.ext4"), path("/srv/images/mount")],
        }
    );
    build = go_on(build, tool_ran());

    assert_eq!(build.phase(), BuildPhase::Mounted(MountedStep::Unpack));
    assert_eq!(
        build.pending(),
        HostAction::UnpackArchive {
            archive: path("/tmp/base.tar.gz"),
            dest: path("/srv/images/mount"),
        }
    );
    build = go_on(build, HostEvent::Done);
    assert_eq!(
        build.pending(),
        HostAction::CopyFile {
            from: path("/etc/resolv.conf"),
            to: path("/srv/images/mount/etc/resolv.conf"),
        }
    );
    build = go_on(build, HostEvent::Done);
    assert_eq!(
        build.pending(),
        HostAction::RunInChroot {
            root: path("/srv/images/mount"),
            commands: get_alpine_setup_commands(),
        }
    );
    build = go_on(build, HostEvent::Done);
    assert_eq!(
        build.pending(),
        HostAction::CopyFile {
            from: path("/srv/images/mount/boot/initramfs-virt"),
            to: path("/srv/images/b1/initramfs-virt"),
        }
    );
    build = go_on(build, HostEvent::Done);
    assert_eq!(
        build.pending(),
        HostAction::ReadFile { path: path("/srv/images/mount/boot/vmlinuz-virt") }
    );
    build = go_on(build, HostEvent::FileRead(boot_image(&kernel)));
    assert_eq!(
        build.pending(),
        HostAction::WriteNewFile { path: path("/srv/images/b1/vmlinux-virt"), contents: kernel }
    );
    build = go_on(build, HostEvent::Done);
    assert_eq!(build.phase(), BuildPhase::Mounted(MountedStep::Unmount));
    assert_eq!(
        build.pending(),
        HostAction::RunTool { program: path("umount"), args: vec![path("/srv/images/mount")] }
    );

    let image = finished(build.advance(tool_ran()));
    assert_eq!(image.rootfs_path(), "/srv/images/b1/rootfs.ext4");
    assert_eq!(image.initrd_path(), "/srv/images/b1/initramfs-virt");
    assert_eq!(image.kernel_path(), "/srv/images/b1/vmlinux-virt");
}

#[test]
fn builds_of_one_layout_hand_over_equal_images() {
    let first = finished(brought_to(BuildPhase::Mounted(MountedStep::Unmount)).advance(tool_ran()));
    let second =
        finished(brought_to(BuildPhase::Mounted(MountedStep::Unmount)).advance(tool_ran()));
    assert_eq!(first, second);
    let mut other = ImageBuilder::new("/elsewhere").begin_build("b1", "/b.tgz", Vec::new());
    while other.phase() != BuildPhase::Mounted(MountedStep::Unmount) {
        let event = answer(&other, b"k");
        other = go_on(other, event);
    }
    assert_ne!(first, finished(other.advance(tool_ran())));
}

#[test]
fn image_size_is_256_mib() {
    assert_eq!(IMAGE_SIZE, 256 * 1024 * 1024);
    assert_eq!(IMAGE_SIZE, 268_435_456);
}

#[test]
fn existing_directories_are_accepted() {
    let mut build = started();
    for _ in 0..3 {
        assert!(matches!(build.pending(), HostAction::ProbeDir { .. }));
        build = go_on(build, HostEvent::Probed(true));
    }
    assert_eq!(build.phase(), BuildPhase::Unmounted(UnmountedStep::CreateFile));
}

#[test]
fn second_setup_of_the_same_layout_creates_nothing() {
    let mut existing: Vec<String> = Vec::new();
    for round in 0..2 {
        let mut build = started();
        let mut created = 0;
        while let BuildPhase::Dirs(_) = build.phase() {
            let event = match build.pending() {
                HostAction::ProbeDir { path } => HostEvent::Probed(existing.contains(&path)),
                HostAction::CreateDirAll { path } => {
                    existing.push(path);
                    created += 1;
                    HostEvent::Done
                }
                other => panic!("not a directory operation: {:?}", other),
            };
            build = go_on(build, event);
        }
        assert_eq!(created, if round == 0 { 3 } else { 0 });
    }
}

#[test]
fn only_missing_directories_are_created() {
    let mut build = started();
    build = go_on(build, HostEvent::Probed(true));
    assert_eq!(build.phase(), BuildPhase::Dirs(DirStep::ProbeWorking));
    build = go_on(build, HostEvent::Probed(false));
    assert_eq!(build.phase(), BuildPhase::Dirs(DirStep::CreateWorking));
    build = go_on(build, HostEvent::Done);
    assert_eq!(build.phase(), BuildPhase::Dirs(DirStep::ProbeMount));
    build = go_on(build, HostEvent::Probed(true));
    assert_eq!(build.phase(), BuildPhase::Unmounted(UnmountedStep::CreateFile));
}

#[test]
fn io_failure_ends_the_build_at_every_phase() {
    for phase in all_phases() {
        let build = brought_to(phase);
        match build.advance(io_failed(ErrorKind::PermissionDenied)) {
            BuildStep::Failed(ImageBuilderError::Io(error)) => {
                assert_eq!(error.kind(), ErrorKind::PermissionDenied)
            }
            other => panic!("at {:?}: {:?}", phase, other),
        }
    }
}

#[test]
fn syscall_failure_ends_the_build_at_every_phase() {
    for phase in all_phases() {
        let build = brought_to(phase);
        let sizing = phase == BuildPhase::Unmounted(UnmountedStep::SizeFile);
        match build.advance(HostEvent::SyscallFailed(Errno::ENOSPC)) {
            BuildStep::Failed(ImageBuilderError::Syscall(errno)) => {
                assert!(!sizing);
                assert_eq!(errno, Errno::ENOSPC)
            }
            BuildStep::Failed(ImageBuilderError::Io(_)) => assert!(sizing),
            other => panic!("at {:?}: {:?}", phase, other),
        }
    }
}

#[test]
fn image_file_that_cannot_be_sized_is_an_io_error() {
    let build = brought_to(BuildPhase::Unmounted(UnmountedStep::SizeFile));
    match build.advance(HostEvent::SyscallFailed(Errno::EFBIG)) {
        BuildStep::Failed(ImageBuilderError::Io(error)) => {
            assert_eq!(error.raw_os_error(), Some(Errno::EFBIG as i32));
        }
        other => panic!("{:?}", other),
    }
}

#[test]
fn child_that_cannot_be_waited_for_is_a_syscall_error() {
    let build = brought_to(BuildPhase::Mounted(MountedStep::Customize));
    match build.advance(HostEvent::SyscallFailed(Errno::ECHILD)) {
        BuildStep::Failed(ImageBuilderError::Syscall(errno)) => assert_eq!(errno, Errno::ECHILD),
        other => panic!("{:?}", other),
    }
}

#[test]
fn existing_image_file_ends_the_build() {
    let build = brought_to(BuildPhase::Unmounted(UnmountedStep::CreateFile));
    match build.advance(io_failed(ErrorKind::AlreadyExists)) {
        BuildStep::Failed(ImageBuilderError::Io(error)) => {
            assert_eq!(error.kind(), ErrorKind::AlreadyExists)
        }
        other => panic!("{:?}", other),
    }
}

#[test]
fn tool_report_is_not_consulted() {
    for phase in [
        BuildPhase::Unmounted(UnmountedStep::Format),
        BuildPhase::Unmounted(UnmountedStep::Mount),
    ] {
        let build = brought_to(phase);
        let before = build.pending();
        let complained = HostEvent::ToolRan(ToolOutput {
            status: Some(1),
            stderr: b"something went wrong".to_vec(),
        });
        let next = go_on(build, complained);
        assert_ne!(next.phase(), phase);
        assert_ne!(next.pending(), before);
    }
    let build = brought_to(BuildPhase::Mounted(MountedStep::Unmount));
    let complained =
        HostEvent::ToolRan(ToolOutput { status: None, stderr: b"umount: busy".to_vec() });
    assert!(matches!(build.advance(complained), BuildStep::Finished(_)));
}

#[test]
fn kernel_image_without_stream_ends_the_build() {
    let build = brought_to(BuildPhase::Mounted(MountedStep::ReadKernel));
    assert!(matches!(
        build.advance(HostEvent::FileRead(vec![0xFF; 4096])),
        BuildStep::Failed(ImageBuilderError::MissingGzipHeader)
    ));
    let build = brought_to(BuildPhase::Mounted(MountedStep::ReadKernel));
    assert!(matches!(
        build.advance(HostEvent::FileRead(Vec::new())),
        BuildStep::Failed(ImageBuilderError::MissingGzipHeader)
    ));
}

#[test]
fn kernel_image_with_broken_stream_ends_the_build() {
    let mut image = vec![0x00; 512];
    image.extend(GZIP_MAGIC_NUM);
    image.extend([0x55; 100]);
    let build = brought_to(BuildPhase::Mounted(MountedStep::ReadKernel));
    assert!(matches!(
        build.advance(HostEvent::FileRead(image)),
        BuildStep::Failed(ImageBuilderError::Io(_))
    ));
}

#[test]
fn event_that_is_no_answer_leaves_the_build_in_place() {
    for phase in all_phases() {
        let wrong: Vec<HostEvent> = match brought_to(phase).pending() {
            HostAction::ProbeDir { .. } => {
                vec![HostEvent::Done, tool_ran(), HostEvent::FileRead(boot_image(b"k"))]
            }
            HostAction::RunTool { .. } => vec![
                HostEvent::Done,
                HostEvent::Probed(true),
                HostEvent::Probed(false),
                HostEvent::FileRead(boot_image(b"k")),
            ],
            HostAction::ReadFile { .. } => {
                vec![HostEvent::Done, HostEvent::Probed(true), tool_ran()]
            }
            _ => vec![
                HostEvent::Probed(true),
                HostEvent::Probed(false),
                tool_ran(),
                HostEvent::FileRead(boot_image(b"k")),
            ],
        };
        for event in wrong {
            let build = brought_to(phase);
            let before = build.pending();
            let after = go_on(build, event);
            assert_eq!(after.phase(), phase);
            assert_eq!(after.pending(), before);
        }
    }
}

#[test]
fn mounted_operations_come_only_after_mount() {
    let mut build = started();
    let mut mounted = false;
    loop {
        let action = build.pending();
        let touches_guest = matches!(
            action,
            HostAction::UnpackArchive { .. }
                | HostAction::CopyFile { .. }
                | HostAction::RunInChroot { .. }
                | HostAction::ReadFile { .. }
                | HostAction::WriteNewFile { .. }
        );
        assert!(!touches_guest || mounted);
        assert_eq!(matches!(build.phase(), BuildPhase::Mounted(_)), mounted);
        let is_mount =
            matches!(&action, HostAction::RunTool { program, .. } if program == "mount");
        let event = answer(&build, b"kernel");
        match build.advance(event) {
            BuildStep::Continue(next) => build = next,
            BuildStep::Finished(_) => break,
            BuildStep::Failed(error) => panic!("{:?}", error),
        }
        if is_mount {
            mounted = true;
        }
    }
    assert!(mounted);
}

#[test]
fn custom_commands_are_run_verbatim_in_order() {
    let commands = vec![
        SetupCommand::new("/usr/bin/first", vec![path("--flag")]),
        SetupCommand::new("/usr/bin/second", Vec::new()),
    ];
    let mut build = ImageBuilder::new("/r").begin_build("x", "/b.tgz", commands);
    while build.phase() != BuildPhase::Mounted(MountedStep::Customize) {
        let event = answer(&build, b"k");
        build = go_on(build, event);
    }
    assert_eq!(
        build.pending(),
        HostAction::RunInChroot {
            root: path("/r/mount"),
            commands: vec![
                SetupCommand { program: path("/usr/bin/first"), args: vec![path("--flag")] },
                SetupCommand { program: path("/usr/bin/second"), args: vec![] },
            ],
        }
    );
}

#[test]
fn fresh_build_has_a_well_formed_identifier() {
    let builder = ImageBuilder::new("/srv/images");
    let build = builder.build_image_from_base("/tmp/base.tar.gz");
    let id = build.id().to_string();
    assert_eq!(id.chars().count(), 36);
    for (i, c) in id.chars().enumerate() {
        if i == 8 || i == 13 || i == 18 || i == 23 {
            assert_eq!(c, '-');
        } else {
            assert!(c.is_ascii_digit() || ('a'..='f').contains(&c));
        }
    }
    assert_ne!(builder.get_working_dir(&id), builder.get_mount_dir());
    let build = go_on(build, HostEvent::Probed(true));
    assert_eq!(build.pending(), HostAction::ProbeDir { path: format!("/srv/images/{}", id) });
    assert_eq!(brought_to(BuildPhase::Mounted(MountedStep::Unmount)).id(), "b1");
    assert_eq!(brought_to(BuildPhase::Unmounted(UnmountedStep::Format)).id(), "b1");
}

#[test]
fn fresh_builds_have_different_identifiers() {
    let builder = ImageBuilder::new("/srv/images");
    let first = builder.build_image_from_base("/a");
    let second = builder.build_image_from_base("/a");
    assert_ne!(first.id(), second.id());
}

#[test]
fn fresh_build_is_set_up_as_an_alpine_guest() {
    let mut build = ImageBuilder::default().build_image_from_base("/tmp/base.tar.gz");
    assert_eq!(
        build.pending(),
        HostAction::ProbeDir { path: path("/var/lib/fc-man/image-builder") }
    );
    while build.phase() != BuildPhase::Mounted(MountedStep::Unpack) {
        let event = answer(&build, b"k");
        build = go_on(build, event);
    }
    assert_eq!(
        build.pending(),
        HostAction::UnpackArchive {
            archive: path("/tmp/base.tar.gz"),
            dest: path("/var/lib/fc-man/image-builder/mount"),
        }
    );
    while build.phase() != BuildPhase::Mounted(MountedStep::Customize) {
        let event = answer(&build, b"k");
        build = go_on(build, event);
    }
    assert!(matches!(
        build.pending(),
        HostAction::RunInChroot { commands, .. } if commands == get_alpine_setup_commands()
    ));
}

#[test]
fn mount_directory_is_shared_by_all_builds() {
    let builder = ImageBuilder::new("/srv/images");
    let mut seen = Vec::new();
    for id in ["one", "two"] {
        let mut build = builder.begin_build(id, "/base.tar.gz", Vec::new());
        while build.phase() != BuildPhase::Dirs(DirStep::ProbeMount) {
            let event = answer(&build, b"k");
            build = go_on(build, event);
        }
        seen.push(build.pending());
    }
    assert_eq!(seen[0], HostAction::ProbeDir { path: path("/srv/images/mount") });
    assert_eq!(seen[0], seen[1]);
}
