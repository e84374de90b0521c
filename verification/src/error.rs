use vstd::prelude::*;

verus! {

/// `std::io::Error`: an I/O failure reported by the host or by the
/// decompressor. The library carries it through without looking inside.
#[verifier::external_type_specification]
#[verifier::external_body]
pub struct ExIoError(std::io::Error);

/// `nix::errno::Errno`: the error number of a failed system call. The library
/// carries it through without looking inside.
#[verifier::external_type_specification]
#[verifier::external_body]
pub struct ExErrno(nix::errno::Errno);

/// `std::path::StripPrefixError`: the failure of rebasing one path under
/// another. The library carries it through without looking inside.
#[verifier::external_type_specification]
#[verifier::external_body]
pub struct ExStripPrefixError(std::path::StripPrefixError);

/// The I/O error that stands for an error number: `std::io::Error::from` on a
/// `nix::errno::Errno`, which makes the error from the number as the
/// operating system would.
#[verifier::external_body]
pub(crate) fn io_error_of(errno: nix::errno::Errno) -> (error: std::io::Error) {
    std::io::Error::from(errno)
}

/// Why a build stopped.
#[derive(Debug)]
pub enum ImageBuilderError {
    /// A file, directory, tool launch or decompression failed.
    Io(std::io::Error),
    /// A privileged operation (waiting for the customization child) failed.
    Syscall(nix::errno::Errno),
    /// A path could not be rebased under the mount point.
    StripPrefix(std::path::StripPrefixError),
    /// The kernel image holds no compressed stream that the scan can see.
    MissingGzipHeader,
}

impl ImageBuilderError {
    /// The text shown for each kind of failure.
    pub open spec fn spec_message(&self) -> Seq<char> {
        match self {
            ImageBuilderError::Io(_) => "IO Error"@,
            ImageBuilderError::Syscall(_) => "Syscall Error"@,
            ImageBuilderError::StripPrefix(_) => "Strip Prefix Error"@,
            ImageBuilderError::MissingGzipHeader =>
                "Unable to find GZIP header in compressed kernel file "@,
        }
    }

    /// The message of this error, as a user sees it.
    pub fn message(&self) -> (text: String)
        ensures
            text@ == self.spec_message(),
    {
        match self {
            ImageBuilderError::Io(_) => "IO Error".to_owned(),
            ImageBuilderError::Syscall(_) => "Syscall Error".to_owned(),
            ImageBuilderError::StripPrefix(_) => "Strip Prefix Error".to_owned(),
            ImageBuilderError::MissingGzipHeader =>
                "Unable to find GZIP header in compressed kernel file ".to_owned(),
        }
    }
}

} // verus!
