//! The configuration that the hypervisor is started with.

use vstd::prelude::*;

verus! {

/// Everything the hypervisor is told about one guest.
#[derive(Debug)]
pub struct VmConfig {
    pub logger: VmLoggerConfig,
    pub boot_source: VmBootSourceConfig,
    pub network: VmNetworkConfig,
    pub drives: VmDrivesConfig,
    pub machine: VmMachineConfig,
}

/// Where and how the hypervisor logs.
#[derive(Debug)]
pub struct VmLoggerConfig {
    pub log_path: String,
    pub level: String,
    pub show_level: bool,
    pub show_log_origin: bool,
}

impl Default for VmLoggerConfig {
    /// Everything is logged to `/tmp/log`, with level and origin shown.
    fn default() -> (config: Self)
        ensures
            config.log_path@ == "/tmp/log"@,
            config.level@ == "Debug"@,
            config.show_level,
            config.show_log_origin,
    {
        VmLoggerConfig {
            log_path: "/tmp/log".to_owned(),
            level: "Debug".to_owned(),
            show_level: true,
            show_log_origin: true,
        }
    }
}

/// What the guest boots from.
#[derive(Debug)]
pub struct VmBootSourceConfig {
    pub kernel_image_path: String,
    pub initrd_path: String,
    pub boot_args: String,
}

/// The guest's network interface.
#[derive(Debug)]
pub struct VmNetworkConfig {
    pub iface_id: String,
    pub guest_mac: String,
    pub host_dev_name: String,
}

/// One of the guest's drives.
#[derive(Debug)]
pub struct VmDrivesConfig {
    pub drive_id: String,
    pub path_on_host: String,
    pub is_root_device: bool,
    pub is_read_only: bool,
}

/// The guest's processors and memory.
#[derive(Debug)]
pub struct VmMachineConfig {
    pub vcpu_count: u8,
    pub mem_size_mib: u32,
}

} // verus!
