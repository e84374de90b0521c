//! One disk image and its mount status.
//!
//! The status is part of the type. An [`ImageRootFs<Unmounted>`] can be
//! allocated, formatted and mounted; mounting consumes it and yields an
//! [`ImageRootFs<Mounted>`], which is the only way to obtain one. The mounted
//! image can be filled, customized and read from; unmounting consumes it and
//! yields nothing. An operation on the wrong status does not compile.
//!
//! The methods do not touch the host. Each returns the [`HostAction`] that
//! carries the operation out, built from the image's own paths.

use std::marker::PhantomData;
use vstd::prelude::*;
use crate::error::ImageBuilderError;
use crate::host::{HostAction, HostActionView, ToolOutput};
use crate::kernel::{
    extract_kernel,
    locate_stream_offset,
    spec_extract_kernel,
    spec_locate,
    Extraction,
};
use crate::paths::{join, rebase_under, spec_join, spec_rebase};
use crate::sealed::Sealed;
use crate::utils::{command_views, texts, SetupCommand, SetupCommandView};

verus! {

/// The image file's name in the working directory.
pub const ROOTFS_FILENAME: &'static str = "rootfs.ext4";

/// The tool that formats the image.
pub const MKFS_EXT4: &'static str = "mkfs.ext4";

/// The tool that mounts the image, and the name of the mount directory.
pub const MOUNT: &'static str = "mount";

/// The tool that unmounts the image.
pub const UMOUNT: &'static str = "umount";

/// The guest directory that holds the boot files.
pub const BOOT: &'static str = "boot";

/// The initial ramdisk's file name.
pub const INITRAM_FS: &'static str = "initramfs-virt";

/// The boot kernel image's file name.
pub const VMLINUZ: &'static str = "vmlinuz-virt";

/// The extracted kernel's file name.
pub const VMLINUX: &'static str = "vmlinux-virt";

/// The host's resolver configuration, which the guest gets a copy of.
pub const RESOLV_CONF_PATH: &'static str = "/etc/resolv.conf";

/// The mount statuses of an image. There are two, [`Unmounted`] and
/// [`Mounted`], and no other can be added from outside.
pub trait ImageRootFsState: Sealed {
}

/// The image is a plain file.
#[derive(Debug)]
pub struct Unmounted;

/// The image is attached at the mount directory.
#[derive(Debug)]
pub struct Mounted;

impl Sealed for Unmounted {
}

impl Sealed for Mounted {
}

impl ImageRootFsState for Unmounted {
}

impl ImageRootFsState for Mounted {
}

/// An image as text: its build, and the two directories it works with. Every
/// other path follows from these.
pub struct RootFsView {
    pub id: Seq<char>,
    pub working_dir: Seq<char>,
    pub mount_dir: Seq<char>,
}

impl RootFsView {
    /// The image file.
    pub open spec fn rootfs_file(self) -> Seq<char> {
        spec_join(self.working_dir, ROOTFS_FILENAME@)
    }

    /// The initial ramdisk inside the mounted image.
    pub open spec fn initramfs_source(self) -> Seq<char> {
        spec_join(spec_join(self.mount_dir, BOOT@), INITRAM_FS@)
    }

    /// Where the initial ramdisk is copied to.
    pub open spec fn initramfs_dest(self) -> Seq<char> {
        spec_join(self.working_dir, INITRAM_FS@)
    }

    /// The boot kernel image inside the mounted image.
    pub open spec fn vmlinuz_path(self) -> Seq<char> {
        spec_join(spec_join(self.mount_dir, BOOT@), VMLINUZ@)
    }

    /// Where the extracted kernel is written.
    pub open spec fn vmlinux_path(self) -> Seq<char> {
        spec_join(self.working_dir, VMLINUX@)
    }

    /// Where the resolver configuration goes inside the mounted image.
    pub open spec fn resolver_dest(self) -> Seq<char> {
        spec_rebase(self.mount_dir, RESOLV_CONF_PATH@)
    }

    /// Creating the image file.
    pub open spec fn create_request(self) -> HostActionView {
        HostActionView::CreateNewFile { path: self.rootfs_file() }
    }

    /// Giving the image file its size.
    pub open spec fn size_request(self, size: i64) -> HostActionView {
        HostActionView::Truncate { path: self.rootfs_file(), size }
    }

    /// Formatting the image file.
    pub open spec fn format_request(self) -> HostActionView {
        HostActionView::RunTool { program: MKFS_EXT4@, args: seq![self.rootfs_file()] }
    }

    /// Attaching the image file at the mount directory.
    pub open spec fn mount_request(self) -> HostActionView {
        HostActionView::RunTool { program: MOUNT@, args: seq![self.rootfs_file(), self.mount_dir] }
    }

    /// Unpacking the base archive into the mounted image.
    pub open spec fn unpack_request(self, base_fs_path: Seq<char>) -> HostActionView {
        HostActionView::UnpackArchive { archive: base_fs_path, dest: self.mount_dir }
    }

    /// Copying the resolver configuration into the mounted image.
    pub open spec fn resolver_request(self) -> HostActionView {
        HostActionView::CopyFile { from: RESOLV_CONF_PATH@, to: self.resolver_dest() }
    }

    /// Running the customization inside the mounted image.
    pub open spec fn setup_request(self, commands: Seq<SetupCommandView>) -> HostActionView {
        HostActionView::RunInChroot { root: self.mount_dir, commands }
    }

    /// Copying the initial ramdisk out of the mounted image.
    pub open spec fn initramfs_request(self) -> HostActionView {
        HostActionView::CopyFile { from: self.initramfs_source(), to: self.initramfs_dest() }
    }

    /// Reading the boot kernel image out of the mounted image.
    pub open spec fn vmlinuz_request(self) -> HostActionView {
        HostActionView::ReadFile { path: self.vmlinuz_path() }
    }

    /// Writing the extracted kernel.
    pub open spec fn vmlinux_request(self, kernel: Seq<u8>) -> HostActionView {
        HostActionView::WriteNewFile { path: self.vmlinux_path(), contents: kernel }
    }

    /// Detaching the image from the mount directory.
    pub open spec fn unmount_request(self) -> HostActionView {
        HostActionView::RunTool { program: UMOUNT@, args: seq![self.mount_dir] }
    }
}

/// An image's root filesystem: the image file in the build's working
/// directory, and the directory where it is mounted.
#[derive(Debug)]
pub struct ImageRootFs<State: ImageRootFsState> {
    id: String,
    working_dir: String,
    mount_dir: String,
    rootfs_file: String,
    _state: PhantomData<State>,
}

impl<State: ImageRootFsState> View for ImageRootFs<State> {
    type V = RootFsView;

    closed spec fn view(&self) -> RootFsView {
        RootFsView { id: self.id@, working_dir: self.working_dir@, mount_dir: self.mount_dir@ }
    }
}

impl<State: ImageRootFsState> ImageRootFs<State> {
    /// The image file lies in the working directory under its fixed name.
    #[verifier::type_invariant]
    spec fn file_in_working_dir(self) -> bool {
        self.rootfs_file@ == spec_join(self.working_dir@, ROOTFS_FILENAME@)
    }

    /// The build that the image belongs to.
    pub fn id(&self) -> (id: &str)
        ensures
            id@ == self@.id,
    {
        self.id.as_str()
    }

    /// The build's working directory.
    pub fn working_dir(&self) -> (path: &str)
        ensures
            path@ == self@.working_dir,
    {
        self.working_dir.as_str()
    }

    /// The directory where the image is mounted.
    pub fn mount_dir(&self) -> (path: &str)
        ensures
            path@ == self@.mount_dir,
    {
        self.mount_dir.as_str()
    }
}

/// A list of one string.
fn one_arg(first: &str) -> (args: Vec<String>)
    ensures
        texts(args@) == seq![first@],
{
    let mut args: Vec<String> = Vec::new();
    args.push(first.to_owned());
    assert(texts(args@) =~= seq![first@]);
    args
}

/// A list of two strings.
fn two_args(first: &str, second: &str) -> (args: Vec<String>)
    ensures
        texts(args@) == seq![first@, second@],
{
    let mut args: Vec<String> = Vec::new();
    args.push(first.to_owned());
    args.push(second.to_owned());
    assert(texts(args@) =~= seq![first@, second@]);
    args
}

impl ImageRootFs<Unmounted> {
    /// The image of build `id`, not yet allocated: its file will lie in
    /// `working_dir`, and it will be mounted at `mount_dir`.
    pub fn new(id: &str, working_dir: &str, mount_dir: &str) -> (rootfs: Self)
        ensures
            rootfs@ == (RootFsView { id: id@, working_dir: working_dir@, mount_dir: mount_dir@ }),
    {
        ImageRootFs {
            id: id.to_owned(),
            working_dir: working_dir.to_owned(),
            mount_dir: mount_dir.to_owned(),
            rootfs_file: join(working_dir, ROOTFS_FILENAME),
            _state: PhantomData,
        }
    }

    /// Allocates the image: first the file is created, which fails if it
    /// exists, then it is given `size` bytes.
    pub fn allocate_file(&self, size: i64) -> (requests: (HostAction, HostAction))
        ensures
            requests.0@ == self@.create_request(),
            requests.1@ == self@.size_request(size),
    {
        proof {
            use_type_invariant(self);
        }
        (
            HostAction::CreateNewFile { path: self.rootfs_file.clone() },
            HostAction::Truncate { path: self.rootfs_file.clone(), size },
        )
    }

    /// Formats the image file.
    pub fn format(&self) -> (request: HostAction)
        ensures
            request@ == self@.format_request(),
    {
        proof {
            use_type_invariant(self);
        }
        HostAction::RunTool {
            program: MKFS_EXT4.to_owned(),
            args: one_arg(self.rootfs_file.as_str()),
        }
    }

    /// Attaches the image file at the mount directory.
    pub fn mount_request(&self) -> (request: HostAction)
        ensures
            request@ == self@.mount_request(),
    {
        proof {
            use_type_invariant(self);
        }
        HostAction::RunTool {
            program: MOUNT.to_owned(),
            args: two_args(self.rootfs_file.as_str(), self.mount_dir.as_str()),
        }
    }

    /// The image once the mount tool has run: the same image, now mounted.
    /// What the tool reported is not consulted.
    pub fn mount(self, ran: ToolOutput) -> (mounted: ImageRootFs<Mounted>)
        ensures
            mounted@ == self@,
    {
        proof {
            use_type_invariant(&self);
        }
        ImageRootFs {
            id: self.id,
            working_dir: self.working_dir,
            mount_dir: self.mount_dir,
            rootfs_file: self.rootfs_file,
            _state: PhantomData,
        }
    }
}

impl ImageRootFs<Mounted> {
    /// The image file.
    pub fn rootfs_file(&self) -> (path: &str)
        ensures
            path@ == self@.rootfs_file(),
    {
        proof {
            use_type_invariant(self);
        }
        self.rootfs_file.as_str()
    }

    /// Fills the mounted image from the base archive: first the archive is
    /// unpacked under the mount directory, then the host's resolver
    /// configuration is copied to the same path below the mount directory.
    /// That path is the configuration's own, rebased: every path can be
    /// rebased, so no request is withheld for the path's sake.
    pub fn copy_from_base_fs(&self, base_fs_path: &str) -> (requests: (HostAction, HostAction))
        ensures
            requests.0@ == self@.unpack_request(base_fs_path@),
            requests.1@ == self@.resolver_request(),
    {
        (
            HostAction::UnpackArchive {
                archive: base_fs_path.to_owned(),
                dest: self.mount_dir.clone(),
            },
            HostAction::CopyFile {
                from: RESOLV_CONF_PATH.to_owned(),
                to: rebase_under(self.mount_dir.as_str(), RESOLV_CONF_PATH),
            },
        )
    }

    /// Runs `commands`, in order, in a child process whose root is the
    /// mounted image.
    pub fn execute_setup(&self, commands: Vec<SetupCommand>) -> (request: HostAction)
        ensures
            request@ == self@.setup_request(command_views(commands@)),
    {
        HostAction::RunInChroot { root: self.mount_dir.clone(), commands }
    }

    /// Copies the initial ramdisk from the mounted image to the working
    /// directory. Returned with the request is the path of the copy.
    pub fn extract_initramfs(&self) -> (extraction: (HostAction, String))
        ensures
            extraction.0@ == self@.initramfs_request(),
            extraction.1@ == self@.initramfs_dest(),
    {
        let boot = join(self.mount_dir.as_str(), BOOT);
        let source = join(boot.as_str(), INITRAM_FS);
        let dest = join(self.working_dir.as_str(), INITRAM_FS);
        (HostAction::CopyFile { from: source, to: dest.clone() }, dest)
    }

    /// Reads the boot kernel image from the mounted image.
    pub fn read_vmlinuz(&self) -> (request: HostAction)
        ensures
            request@ == self@.vmlinuz_request(),
    {
        let boot = join(self.mount_dir.as_str(), BOOT);
        HostAction::ReadFile { path: join(boot.as_str(), VMLINUZ) }
    }

    /// Where the compressed kernel starts in the boot kernel image
    /// `vmlinuz`: the first signature that lies within one chunk of the
    /// scan. Fails with `MissingGzipHeader` exactly when there is none.
    pub fn find_vmlinuz_gzip_offset(&self, vmlinuz: &[u8]) -> (located: Result<
        u64,
        ImageBuilderError,
    >)
        ensures
            match located {
                Ok(offset) => spec_locate(vmlinuz@) == Some(offset as int),
                Err(error) => error is MissingGzipHeader && spec_locate(vmlinuz@) is None,
            },
    {
        locate_stream_offset(vmlinuz)
    }

    /// Writes `kernel` to the kernel file in the working directory, which
    /// must not exist yet.
    pub fn write_vmlinux(&self, kernel: Vec<u8>) -> (request: HostAction)
        ensures
            request@ == self@.vmlinux_request(kernel@),
    {
        HostAction::WriteNewFile { path: self.vmlinux_path(), contents: kernel }
    }

    /// The kernel file in the working directory.
    pub fn vmlinux_path(&self) -> (path: String)
        ensures
            path@ == self@.vmlinux_path(),
    {
        join(self.working_dir.as_str(), VMLINUX)
    }

    /// Extracts the kernel from the boot kernel image `vmlinuz`. On success
    /// the result is the path of the kernel file in the working directory,
    /// with the request that writes the decompressed kernel there.
    ///
    /// Fails with `MissingGzipHeader` exactly when no compressed stream is
    /// located, and with `Io` exactly when the bytes from the located offset
    /// on do not decompress.
    pub fn extract_and_decompress_vmlinuz(&self, vmlinuz: &[u8]) -> (extraction: Result<
        (HostAction, String),
        ImageBuilderError,
    >)
        ensures
            match spec_extract_kernel(vmlinuz@) {
                Extraction::MissingHeader => extraction is Err && extraction->Err_0
                    is MissingGzipHeader,
                Extraction::Undecodable => extraction is Err && extraction->Err_0 is Io,
                Extraction::Kernel(kernel) => extraction is Ok && extraction->Ok_0.0@
                    == self@.vmlinux_request(kernel) && extraction->Ok_0.1@
                    == self@.vmlinux_path(),
            },
    {
        match extract_kernel(vmlinuz) {
            Ok(kernel) => Ok((self.write_vmlinux(kernel), self.vmlinux_path())),
            Err(error) => Err(error),
        }
    }

    /// Detaches the image from the mount directory.
    pub fn unmount_request(&self) -> (request: HostAction)
        ensures
            request@ == self@.unmount_request(),
    {
        HostAction::RunTool { program: UMOUNT.to_owned(), args: one_arg(self.mount_dir.as_str()) }
    }

    /// Gives the image up once the unmount tool has run. Nothing can be done
    /// with it afterwards. What the tool reported is not consulted.
    pub fn unmount(self, ran: ToolOutput) {
    }
}

} // verus!
