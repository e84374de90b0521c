//! What the parts of the service say to each other.

use vstd::prelude::*;
use crate::image_builder::Image;

verus! {

/// Messages for the image builder.
#[derive(Debug)]
pub enum ImageBuilderCommands<'a> {
    /// Build an image from the base archive at `base_fs`.
    BuildImage { base_fs: &'a str },
}

/// Messages for the VM manager.
#[derive(Debug)]
pub enum VmCommands {
    /// Launch a guest from `image`.
    LaunchVm { image: Image },
}

} // verus!
