//! The platform-independent description of a block device and its mounted
//! filesystems.
use vstd::prelude::*;

verus! {

/// One mounted (or mountable) filesystem of a device.
pub struct MountPoint {
    /// Where the filesystem is mounted; empty when it is not mounted.
    pub path: String,
    /// The filesystem label, or else the partition label.
    pub label: Option<String>,
    pub total_bytes: Option<u64>,
    pub available_bytes: Option<u64>,
}

/// One block device, with the facts derived from the platform's report.
pub struct DeviceDescriptor {
    /// Which backend produced this record.
    pub enumerator: String,
    pub bus_type: Option<String>,
    /// The device's friendly name.
    pub device: String,
    /// The kernel's name for the device.
    pub raw: String,
    pub description: String,
    pub size: u64,
    pub block_size: u32,
    pub logical_block_size: u32,
    pub partition_table_type: Option<String>,
    pub mountpoints: Vec<MountPoint>,
    pub is_readonly: bool,
    pub is_system: bool,
    pub is_virtual: bool,
    pub is_removable: bool,
    pub is_scsi: bool,
    pub is_usb: bool,
}

} // verus!
