//! Facts that hold of every device and child record.
use vstd::prelude::*;
use crate::device::MountPoint;
use crate::lsblk::{maps_child, Child, Device};
use crate::text::has_substring;

verus! {

/// A device whose subsystem chain contains `block` is not virtual.
pub proof fn lemma_block_device_not_virtual(d: Device)
    requires
        has_substring(d.subsystems@, "block"@),
    ensures
        !d.spec_virtual(),
{
}

/// A device whose subsystem chain lacks `block` is virtual, removable, and
/// not a system device.
pub proof fn lemma_non_block_device_virtual(d: Device)
    requires
        !has_substring(d.subsystems@, "block"@),
    ensures
        d.spec_virtual(),
        d.spec_removable(),
        !d.spec_system(),
{
}

/// No device is both virtual and a system device.
pub proof fn lemma_system_not_virtual(d: Device)
    ensures
        !(d.spec_system() && d.spec_virtual()),
{
}

/// A device with the removable or the hotplug flag set is removable.
pub proof fn lemma_flagged_device_removable(d: Device)
    requires
        d.rm || d.hotplug,
    ensures
        d.spec_removable(),
{
}

/// A child with no mount point maps to a mount point with the empty path.
pub proof fn lemma_unmounted_child_empty_path(m: MountPoint, c: Child)
    requires
        maps_child(m, c),
        c.mountpoint is None,
    ensures
        m.path@ == Seq::<char>::empty(),
{
}

/// The filesystem label wins over the partition label.
pub proof fn lemma_label_preferred(m: MountPoint, c: Child)
    requires
        maps_child(m, c),
        c.label is Some,
    ensures
        m.label == c.label,
{
}

/// Without a filesystem label, the partition label is used.
pub proof fn lemma_partlabel_fallback(m: MountPoint, c: Child)
    requires
        maps_child(m, c),
        c.label is None,
    ensures
        m.label == c.partlabel,
{
}

} // verus!
