//! The raw records of a block-device inventory report, and their mapping to
//! device descriptors.
use vstd::prelude::*;
use crate::device::{DeviceDescriptor, MountPoint};
use crate::text::{contains, has_substring, to_upper, upper_of};

verus! {

/// The characters of an optional text, the empty sequence where it is absent.
pub open spec fn text_or_empty(t: Option<String>) -> Seq<char> {
    match t {
        Some(s) => s@,
        None => Seq::empty(),
    }
}

/// The bus type reported for a transport: the transport uppercased, or
/// `UNKNOWN` where no transport is reported.
pub open spec fn bus_type_spec(tran: Option<String>) -> Seq<char> {
    match tran {
        Some(t) => upper_of(t@),
        None => "UNKNOWN"@,
    }
}

/// A partition or volume of a device, as reported.
pub struct Child {
    pub mountpoint: Option<String>,
    pub fssize: Option<u64>,
    pub fsavail: Option<u64>,
    pub label: Option<String>,
    pub partlabel: Option<String>,
}

/// A block device, as reported.
pub struct Device {
    pub size: u64,
    pub kname: String,
    pub name: String,
    pub tran: Option<String>,
    /// The chain of kernel subsystems the device is attached through.
    pub subsystems: String,
    pub ro: bool,
    pub phy_sec: u32,
    pub log_sec: u32,
    pub rm: bool,
    pub ptype: Option<String>,
    pub children: Vec<Child>,
    pub label: Option<String>,
    pub vendor: Option<String>,
    pub model: Option<String>,
    pub hotplug: bool,
}

/// The whole report: every device, in the order reported.
pub struct Devices {
    pub blockdevices: Vec<Device>,
}

impl Device {
    /// No `block` subsystem in the chain.
    pub open spec fn spec_virtual(&self) -> bool {
        !has_substring(self.subsystems@, "block"@)
    }

    pub open spec fn spec_removable(&self) -> bool {
        self.rm || self.hotplug || self.spec_virtual()
    }

    pub open spec fn spec_system(&self) -> bool {
        !(self.spec_removable() || self.spec_virtual())
    }

    pub open spec fn spec_scsi(&self) -> bool {
        let s = self.subsystems@;
        has_substring(s, "sata"@) || has_substring(s, "scsi"@) || has_substring(s, "ata"@)
            || has_substring(s, "ide"@) || has_substring(s, "pci"@)
    }

    pub open spec fn spec_usb(&self) -> bool {
        has_substring(self.subsystems@, "usb"@)
    }

    /// Label, vendor and model, each empty where absent, joined by single spaces.
    pub open spec fn spec_description(&self) -> Seq<char> {
        text_or_empty(self.label) + seq![' '] + text_or_empty(self.vendor) + seq![' ']
            + text_or_empty(self.model)
    }

    /// The name given to a device whose report carries none.
    pub fn name_default() -> (r: String)
        ensures
            r@ == "NO_NAME"@,
    {
        String::from_str("NO_NAME")
    }

    pub fn is_scsi(&self) -> (r: bool)
        ensures
            r == self.spec_scsi(),
    {
        let s = self.subsystems.as_str();
        contains(s, "sata") || contains(s, "scsi") || contains(s, "ata") || contains(s, "ide")
            || contains(s, "pci")
    }

    pub fn is_usb(&self) -> (r: bool)
        ensures
            r == self.spec_usb(),
    {
        contains(self.subsystems.as_str(), "usb")
    }

    pub fn description(&self) -> (r: String)
        ensures
            r@ == self.spec_description(),
    {
        let mut r = String::new();
        if let Some(l) = &self.label {
            r.append(l.as_str());
        }
        proof {
            reveal_strlit(" ");
        }
        r.append(" ");
        if let Some(v) = &self.vendor {
            r.append(v.as_str());
        }
        r.append(" ");
        if let Some(m) = &self.model {
            r.append(m.as_str());
        }
        r
    }

    pub fn is_virtual(&self) -> (r: bool)
        ensures
            r == self.spec_virtual(),
    {
        !contains(self.subsystems.as_str(), "block")
    }

    pub fn is_removable(&self) -> (r: bool)
        ensures
            r == self.spec_removable(),
    {
        self.rm || self.hotplug || self.is_virtual()
    }

    pub fn is_system(&self) -> (r: bool)
        ensures
            r == self.spec_system(),
    {
        !(self.is_removable() || self.is_virtual())
    }
}

/// `m` is what `c` maps to: the mount path defaults to empty, the label falls
/// back to the partition label, and the sizes are carried over.
pub open spec fn maps_child(m: MountPoint, c: Child) -> bool {
    &&& m.path@ == text_or_empty(c.mountpoint)
    &&& m.label == (if c.label is Some { c.label } else { c.partlabel })
    &&& m.total_bytes == c.fssize
    &&& m.available_bytes == c.fsavail
}

/// `ms` holds what each of `cs` maps to, in the same order.
pub open spec fn maps_children(ms: Seq<MountPoint>, cs: Seq<Child>) -> bool {
    &&& ms.len() == cs.len()
    &&& forall|i: int| 0 <= i < cs.len() ==> maps_child(#[trigger] ms[i], cs[i])
}

/// `r` describes `d` with bus type `bus`: every derived fact is the one the
/// classification rules give.
pub open spec fn describes(r: DeviceDescriptor, d: Device, bus: Seq<char>) -> bool {
    &&& r.enumerator@ == "lsblk:json"@
    &&& r.bus_type is Some
    &&& r.bus_type->0@ == bus
    &&& r.device == d.name
    &&& r.raw == d.kname
    &&& r.description@ == d.spec_description()
    &&& r.size == d.size
    &&& r.block_size == d.phy_sec
    &&& r.logical_block_size == d.log_sec
    &&& r.partition_table_type == d.ptype
    &&& maps_children(r.mountpoints@, d.children@)
    &&& r.is_readonly == d.ro
    &&& r.is_system == d.spec_system()
    &&& r.is_virtual == d.spec_virtual()
    &&& r.is_removable == d.spec_removable()
    &&& r.is_scsi == d.spec_scsi()
    &&& r.is_usb == d.spec_usb()
}

impl MountPoint {
    /// The mount point that a reported partition or volume maps to.
    pub fn from_child(c: Child) -> (r: MountPoint)
        ensures
            maps_child(r, c),
    {
        let path = match c.mountpoint {
            Some(p) => p,
            None => String::new(),
        };
        let label = if c.label.is_some() {
            c.label
        } else {
            c.partlabel
        };
        MountPoint { path, label, total_bytes: c.fssize, available_bytes: c.fsavail }
    }
}

/// The bus type of a device with transport `tran`.
pub fn bus_type(tran: &Option<String>) -> (r: String)
    ensures
        r@ == bus_type_spec(*tran),
{
    match tran {
        Some(t) => to_upper(t.as_str()),
        None => String::from_str("UNKNOWN"),
    }
}

/// The mount points of all `children`, in order.
pub fn map_children(children: Vec<Child>) -> (r: Vec<MountPoint>)
    ensures
        maps_children(r@, children@),
{
    let ghost cs = children@;
    let mut r: Vec<MountPoint> = Vec::new();
    for c in it: children.into_iter()
        invariant
            it.seq() == cs,
            r.len() == it.index(),
            forall|i: int| 0 <= i < r.len() ==> maps_child(#[trigger] r@[i], cs[i]),
    {
        r.push(MountPoint::from_child(c));
    }
    r
}

impl DeviceDescriptor {
    /// The descriptor of `d`, given the bus type already worked out for it.
    pub fn with_bus_type(d: Device, bus: String) -> (r: DeviceDescriptor)
        ensures
            describes(r, d, bus@),
    {
        let is_scsi = d.is_scsi();
        let is_usb = d.is_usb();
        let description = d.description();
        let is_virtual = d.is_virtual();
        let is_removable = d.is_removable();
        let is_system = d.is_system();
        DeviceDescriptor {
            enumerator: String::from_str("lsblk:json"),
            bus_type: Some(bus),
            device: d.name,
            raw: d.kname,
            description,
            size: d.size,
            block_size: d.phy_sec,
            logical_block_size: d.log_sec,
            partition_table_type: d.ptype,
            mountpoints: map_children(d.children),
            is_readonly: d.ro,
            is_system,
            is_virtual,
            is_removable,
            is_scsi,
            is_usb,
        }
    }

    /// The descriptor of a reported device.
    pub fn from_device(d: Device) -> (r: DeviceDescriptor)
        ensures
            describes(r, d, bus_type_spec(d.tran)),
    {
        let bus = bus_type(&d.tran);
        DeviceDescriptor::with_bus_type(d, bus)
    }
}

/// Why an enumeration failed.
#[derive(Debug, Clone, Copy, PartialEq, Eq, Structural)]
pub enum InventoryError {
    /// The inventory command could not be started.
    LaunchFailure,
    /// The inventory command ran but did not exit successfully.
    ExternalToolFailure,
    /// The inventory command's output is not a well-formed report.
    MalformedInventoryData,
}

/// `rs` holds the descriptor of each of `ds`, in the same order.
pub open spec fn describes_all(rs: Seq<DeviceDescriptor>, ds: Seq<Device>) -> bool {
    &&& rs.len() == ds.len()
    &&& forall|i: int|
        0 <= i < ds.len() ==> describes(#[trigger] rs[i], ds[i], bus_type_spec(ds[i].tran))
}

/// The descriptors of all `devices`, in order.
pub fn map_devices(devices: Vec<Device>) -> (r: Vec<DeviceDescriptor>)
    ensures
        describes_all(r@, devices@),
{
    let ghost ds = devices@;
    let mut r: Vec<DeviceDescriptor> = Vec::new();
    for d in it: devices.into_iter()
        invariant
            it.seq() == ds,
            r.len() == it.index(),
            forall|i: int|
                0 <= i < r.len() ==> describes(#[trigger] r@[i], ds[i], bus_type_spec(ds[i].tran)),
    {
        r.push(DeviceDescriptor::from_device(d));
    }
    r
}

/// The outcome of an enumeration once the inventory command has exited:
/// `succeeded` is its exit status, and `report` what its output parsed to
/// (`None` where it did not parse, or was not read because the command failed).
/// A failed command is reported as such whatever its output.
pub fn descriptors_from_report(succeeded: bool, report: Option<Devices>) -> (r: Result<
    Vec<DeviceDescriptor>,
    InventoryError,
>)
    ensures
        !succeeded ==> r == Err::<Vec<DeviceDescriptor>, InventoryError>(
            InventoryError::ExternalToolFailure,
        ),
        succeeded && report is None ==> r == Err::<Vec<DeviceDescriptor>, InventoryError>(
            InventoryError::MalformedInventoryData,
        ),
        succeeded && report is Some ==> r is Ok && describes_all(
            r->Ok_0@,
            report->0.blockdevices@,
        ),
{
    if !succeeded {
        return Err(InventoryError::ExternalToolFailure);
    }
    match report {
        Some(devices) => Ok(map_devices(devices.blockdevices)),
        None => Err(InventoryError::MalformedInventoryData),
    }
}

} // verus!
