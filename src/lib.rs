//! Enumeration of block storage devices from a host inventory report, and
//! the rules that turn each raw device record into a device descriptor.
pub mod text;
pub mod device;
pub mod lsblk;
pub mod laws;
