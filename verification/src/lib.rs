//! Provisioning of disk images and boot artifacts for lightweight virtual
//! machines.
//!
//! The library decides; the host performs. Every effect on the outside world
//! (creating files, running the formatting and mount tools, unpacking the base
//! archive, forking the customization child) is described by a [`host::HostAction`]
//! that the caller carries out, answering with a [`host::HostEvent`]. What is
//! computed from bytes alone (locating and decompressing the embedded kernel
//! stream, deriving the directory layout) is computed here.
//!
//! A build is not safe for concurrent use: the mount point is one shared
//! directory, so callers must run builds one at a time.

pub mod build_laws;
pub mod build_phases;
pub mod customize;
pub mod error;
pub mod host;
pub mod image_builder;
pub mod kernel;
pub mod messages;
pub mod paths;
pub mod rootfs;
mod sealed;
pub mod utils;
pub mod vm_config;
pub mod vm_manager;
