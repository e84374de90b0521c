use fc_man::error::ImageBuilderError;
use fc_man::host::{HostAction, HostEvent, ToolOutput};
use fc_man::image_builder::{BuildStep, Image, ImageBuilder};
use fc_man::messages::{ImageBuilderCommands, VmCommands};
use fc_man::utils::{
    copy_commands, copy_strings, get_alpine_setup_commands, SetupCommand, FIRECRACKER_BIN,
};
use fc_man::vm_config::{VmLoggerConfig, VmMachineConfig};
use fc_man::vm_manager::{setup_socket_dir, VmError, FIRECRACKER_SOCKET_DIR};
use nix::errno::Errno;
use std::io::{Error, ErrorKind, Write};
use std::path::Path;

fn built_image() -> Image {
    let mut build = ImageBuilder::new("/w").begin_build("id", "/base.tar.gz", Vec::new());
    loop {
        let event = match build.pending() {
            HostAction::ProbeDir { .. } => HostEvent::Probed(true),
            HostAction::RunTool { .. } => {
                HostEvent::ToolRan(ToolOutput { status: Some(0), stderr: Vec::new() })
            }
            HostAction::ReadFile { .. } => {
                let mut encoder =
                    flate2::write::GzEncoder::new(Vec::new(), flate2::Compression::fast());
                encoder.write_all(b"kernel").unwrap();
                HostEvent::FileRead(encoder.finish().unwrap())
            }
            _ => HostEvent::Done,
        };
        match build.advance(event) {
            BuildStep::Continue(next) => build = next,
            BuildStep::Finished(image) => return image,
            BuildStep::Failed(error) => panic!("{:?}", error),
        }
    }
}

fn words(list: &[&str]) -> Vec<String> {
    list.iter().map(|w| w.to_string()).collect()
}

#[test]
fn alpine_setup_is_four_commands() {
    let commands = get_alpine_setup_commands();
    assert_eq!(
        commands,
        vec![
            SetupCommand { program: "/sbin/apk".to_string(), args: words(&["update"]) },
            SetupCommand {
                program: "/sbin/apk".to_string(),
                args: words(&[
                    "add",
                    "linux-virt",
                    "mkinitfs",
                    "alpine-base",
                    "util-linux",
                    "openrc",
                    "openssh",
                    "sudo",
                ]),
            },
            SetupCommand {
                program: "/bin/ln".to_string(),
                args: words(&["-s", "agetty", "/etc/init.d/agetty.ttyS0"]),
            },
            SetupCommand {
                program: "/bin/echo".to_string(),
                args: words(&["ttyS0", ">", "/etc/securetty"]),
            },
        ]
    );
}

#[test]
fn copies_are_equal_to_what_they_copy() {
    let commands = get_alpine_setup_commands();
    assert_eq!(copy_commands(&commands), commands);
    assert_eq!(commands[1].duplicate(), commands[1]);
    let strings = words(&["a", "", "ü"]);
    assert_eq!(copy_strings(&strings), strings);
    assert_eq!(copy_strings(&Vec::new()), Vec::<String>::new());
    let bytes = vec![0u8, 255, 7];
    assert_eq!(fc_man::host::copy_bytes(&bytes), bytes);
}

#[test]
fn hypervisor_is_firecracker() {
    assert_eq!(FIRECRACKER_BIN, "firecracker");
    assert_eq!(FIRECRACKER_SOCKET_DIR, "/run/firecracker");
}

#[test]
fn each_error_has_its_message() {
    assert_eq!(ImageBuilderError::Io(Error::from(ErrorKind::NotFound)).message(), "IO Error");
    assert_eq!(ImageBuilderError::Syscall(Errno::EPERM).message(), "Syscall Error");
    let not_a_prefix = Path::new("/etc").strip_prefix("/var").unwrap_err();
    assert_eq!(ImageBuilderError::StripPrefix(not_a_prefix).message(), "Strip Prefix Error");
    assert_eq!(
        ImageBuilderError::MissingGzipHeader.message(),
        "Unable to find GZIP header in compressed kernel file "
    );
    assert_eq!(VmError::Io(Error::from(ErrorKind::Other)).message(), "IO Error");
}

#[test]
fn default_logger_logs_everything_to_tmp() {
    let config = VmLoggerConfig::default();
    assert_eq!(config.log_path, "/tmp/log");
    assert_eq!(config.level, "Debug");
    assert!(config.show_level);
    assert!(config.show_log_origin);
    let machine = VmMachineConfig { vcpu_count: 2, mem_size_mib: 512 };
    assert_eq!(machine.vcpu_count, 2);
    assert_eq!(machine.mem_size_mib, 512);
}

#[test]
fn socket_directory_is_created_when_missing() {
    assert_eq!(setup_socket_dir(true), None);
    assert_eq!(
        setup_socket_dir(false),
        Some(HostAction::CreateDirAll { path: "/run/firecracker".to_string() })
    );
}

#[test]
fn messages_carry_their_payload() {
    let ImageBuilderCommands::BuildImage { base_fs } =
        ImageBuilderCommands::BuildImage { base_fs: "/tmp/base.tar.gz" };
    assert_eq!(base_fs, "/tmp/base.tar.gz");
    let VmCommands::LaunchVm { image: launched } = VmCommands::LaunchVm { image: built_image() };
    assert_eq!(launched.kernel_path(), "/w/id/vmlinux-virt");
    assert_eq!(launched.initrd_path(), "/w/id/initramfs-virt");
    assert_eq!(launched.rootfs_path(), "/w/id/rootfs.ext4");
}
