//! What the VM manager decides before it starts guests.

use vstd::prelude::*;
use crate::host::{HostAction, HostActionView};

verus! {

/// Where the hypervisor's control sockets live.
pub const FIRECRACKER_SOCKET_DIR: &'static str = "/run/firecracker";

/// Why the VM manager stopped.
#[derive(Debug)]
pub enum VmError {
    /// A directory or a process could not be set up.
    Io(std::io::Error),
}

impl VmError {
    /// The message of this error, as a user sees it.
    pub fn message(&self) -> (text: String)
        ensures
            text@ == "IO Error"@,
    {
        "IO Error".to_owned()
    }
}

/// What is to be done for the socket directory, given whether it exists:
/// nothing where it does, its creation where it does not.
pub fn setup_socket_dir(exists: bool) -> (request: Option<HostAction>)
    ensures
        exists ==> request is None,
        !exists ==> request is Some && request->Some_0@ == (HostActionView::CreateDirAll {
            path: FIRECRACKER_SOCKET_DIR@,
        }),
{
    if exists {
        None
    } else {
        Some(HostAction::CreateDirAll { path: FIRECRACKER_SOCKET_DIR.to_owned() })
    }
}

} // verus!
