//! The boundary with `rusb`: its types as Verus sees them, and the calls the
//! library makes into it. Everything here is trusted, not proved.
use vstd::prelude::*;
use rusb::{Context, Device, DeviceHandle, UsbContext};
use crate::serial::ControlSetup;
use std::time::Duration;

verus! {

/// An attached USB device, as enumeration found it. Opaque to Verus: it
/// holds a `rusb::Device`, whose declaration Verus refuses (its context
/// parameter is bound by an outside trait).
#[verifier::external_body]
pub struct UsbDevice {
    pub device: Device<Context>,
}

/// An open handle on the adapter, owned by the caller. Opaque to Verus: it
/// holds a `rusb::DeviceHandle`, refused for the same reason as `rusb::Device`.
#[verifier::external_body]
pub struct UsbHandle {
    pub handle: DeviceHandle<Context>,
}

#[verifier::external_type_specification]
#[verifier::external_body]
pub struct ExError(rusb::Error);

/// Relies on `rusb::Context::new`, `UsbContext::devices` and `DeviceList::iter`:
/// the devices attached right now, or the error of libusb's initialisation or
/// of the enumeration.
#[verifier::external_body]
pub(crate) fn attached_devices() -> (r: Result<Vec<UsbDevice>, rusb::Error>) {
    Context::new().and_then(|context| context.devices()).map(
        |list| list.iter().map(|device| UsbDevice { device }).collect(),
    )
}

/// Relies on `rusb::Device::device_descriptor`, and on `vendor_id` and
/// `product_id` of the descriptor it returns: the device's identifier pair.
#[verifier::external_body]
pub(crate) fn device_ids(device: &UsbDevice) -> (r: Result<(u16, u16), rusb::Error>) {
    device.device.device_descriptor().map(|d| (d.vendor_id(), d.product_id()))
}

/// Relies on `rusb::DeviceHandle::read_control`: a device-to-host control
/// transfer with the fields of `setup` that fills `buf` and gives the number
/// of bytes received. The timeout must be at least 1 ms (shorter blocks
/// forever) and its milliseconds must fit in a `u32`.
#[verifier::external_body]
pub(crate) fn read_control(
    handle: &UsbHandle,
    setup: &ControlSetup,
    buf: &mut [u8],
    timeout_secs: u64,
) -> (r: Result<usize, rusb::Error>)
    requires
        1 <= timeout_secs <= 4_294_967,
    ensures
        final(buf)@.len() == old(buf)@.len(),
{
    let t = Duration::from_secs(timeout_secs);
    handle.handle.read_control(setup.request_type, setup.request, setup.value, setup.index, buf, t)
}

/// Relies on `rusb::DeviceHandle::write_control`: a host-to-device control
/// transfer with the fields of `setup` that sends `buf` and gives the number
/// of bytes sent. The timeout must be at least 1 ms (shorter blocks forever)
/// and its milliseconds must fit in a `u32`.
#[verifier::external_body]
pub(crate) fn write_control(
    handle: &UsbHandle,
    setup: &ControlSetup,
    buf: &[u8],
    timeout_secs: u64,
) -> (r: Result<usize, rusb::Error>)
    requires
        1 <= timeout_secs <= 4_294_967,
{
    let t = Duration::from_secs(timeout_secs);
    handle.handle.write_control(setup.request_type, setup.request, setup.value, setup.index, buf, t)
}

} // verus!
