//! Finding the adapter among the attached USB devices.
use vstd::prelude::*;
use crate::usb::{attached_devices, device_ids, UsbDevice};

verus! {

/// Vendor identifier of the adapter.
pub const VENDOR_ID: u16 = 0x16c0;

/// Product identifier of the adapter.
pub const PRODUCT_ID: u16 = 0x05dc;

/// Whether a device whose descriptor gave `ids` (or could not be read: `None`) is the adapter.
pub open spec fn is_adapter(ids: Option<(u16, u16)>) -> bool {
    ids == Some((VENDOR_ID, PRODUCT_ID))
}

/// Tells whether a device's identifier pair is the adapter's. A device whose
/// descriptor could not be read (`None`) does not match.
pub fn is_device_corresponding(ids: Option<(u16, u16)>) -> (r: bool)
    ensures
        r == is_adapter(ids),
{
    match ids {
        Some((vendor, product)) => vendor == VENDOR_ID && product == PRODUCT_ID,
        None => false,
    }
}

/// Returns the index of the first entry that is the adapter's, if any.
pub fn find_adapter(ids: &[Option<(u16, u16)>]) -> (r: Option<usize>)
    ensures
        match r {
            Some(i) => i < ids@.len() && is_adapter(ids@[i as int]) && forall|j: int|
                0 <= j < i ==> !is_adapter(#[trigger] ids@[j]),
            None => forall|j: int| 0 <= j < ids@.len() ==> !is_adapter(#[trigger] ids@[j]),
        },
{
    let mut i: usize = 0;
    while i < ids.len()
        invariant
            i <= ids@.len(),
            forall|j: int| 0 <= j < i ==> !is_adapter(#[trigger] ids@[j]),
        decreases ids@.len() - i,
    {
        if is_device_corresponding(ids[i]) {
            return Some(i);
        }
        i = i + 1;
    }
    None
}

/// Whether a descriptor read gave the adapter's identifier pair.
pub open spec fn read_is_adapter(read: Result<(u16, u16), rusb::Error>) -> bool {
    read == Ok::<(u16, u16), rusb::Error>((VENDOR_ID, PRODUCT_ID))
}

/// The adapter as enumeration found it, with the identifier pair that its
/// descriptor gave.
pub struct FoundDevice {
    pub device: UsbDevice,
    pub ids: (u16, u16),
}

/// Given the result of the enumeration and, for each device it listed, the
/// result of reading its descriptor, returns the first device whose read gave
/// the adapter's identifiers, with those identifiers. A failed enumeration
/// gives `None`; a failed read counts as no match.
pub fn select_device(
    enumerated: Result<Vec<UsbDevice>, rusb::Error>,
    reads: Vec<Result<(u16, u16), rusb::Error>>,
) -> (r: Option<FoundDevice>)
    requires
        enumerated matches Ok(devices) ==> devices@.len() == reads@.len(),
    ensures
        enumerated is Err ==> r is None,
        enumerated matches Ok(devices) ==> (r is None <==> forall|j: int|
            0 <= j < reads@.len() ==> !read_is_adapter(#[trigger] reads@[j])),
        enumerated matches Ok(devices) ==> (r matches Some(f) ==> exists|i: int|
            0 <= i < devices@.len() && f.device == devices@[i] && read_is_adapter(reads@[i])
                && forall|j: int| 0 <= j < i ==> !read_is_adapter(#[trigger] reads@[j])),
        r matches Some(f) ==> f.ids == (VENDOR_ID, PRODUCT_ID),
{
    let mut devices = match enumerated {
        Ok(devices) => devices,
        Err(_) => return None,
    };
    let mut ids: Vec<Option<(u16, u16)>> = Vec::new();
    let mut i: usize = 0;
    while i < reads.len()
        invariant
            i <= reads@.len(),
            ids@.len() == i,
            forall|j: int| 0 <= j < i ==> is_adapter(#[trigger] ids@[j]) == read_is_adapter(reads@[j]),
        decreases reads@.len() - i,
    {
        let id = match reads[i] {
            Ok(pair) => Some(pair),
            Err(_) => None,
        };
        ids.push(id);
        i = i + 1;
    }
    match find_adapter(ids.as_slice()) {
        Some(k) => {
            let ghost before = devices@;
            let device = devices.swap_remove(k);
            assert(device == before[k as int]);
            assert forall|j: int| 0 <= j < k implies !read_is_adapter(#[trigger] reads@[j]) by {
                assert(!is_adapter(ids@[j]));
            }
            assert(is_adapter(ids@[k as int]));
            Some(FoundDevice { device, ids: (VENDOR_ID, PRODUCT_ID) })
        },
        None => {
            assert forall|j: int| 0 <= j < reads@.len() implies !read_is_adapter(
                #[trigger] reads@[j],
            ) by {
                assert(!is_adapter(ids@[j]));
            }
            None
        },
    }
}

/// Enumerates the attached devices and returns the first that is the adapter,
/// with the identifier pair it was matched on. A device whose descriptor
/// cannot be read counts as no match; a failed enumeration gives `None`
/// (`select_device` states both). No device is opened.
pub fn find_device() -> (r: Option<FoundDevice>)
    ensures
        r matches Some(f) ==> f.ids == (VENDOR_ID, PRODUCT_ID),
{
    let enumerated = attached_devices();
    let mut reads: Vec<Result<(u16, u16), rusb::Error>> = Vec::new();
    if let Ok(devices) = &enumerated {
        let mut i: usize = 0;
        while i < devices.len()
            invariant
                i <= devices@.len(),
                reads@.len() == i,
            decreases devices@.len() - i,
        {
            reads.push(device_ids(&devices[i]));
            i = i + 1;
        }
    }
    select_device(enumerated, reads)
}

} // verus!
