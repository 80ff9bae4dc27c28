//! Host-side protocol layer for a USB serial adapter: finding the adapter,
//! the control transfers that drive its serial line, the packet format and
//! the display of received bytes.

mod codec;
mod device;
mod display;
mod error;
mod serial;
mod usb;

pub use codec::{bits_from_buffer, encode, MAX_PAYLOAD, PACKET_SIZE};
pub use device::{
    find_adapter, find_device, is_device_corresponding, select_device, FoundDevice, PRODUCT_ID,
    VENDOR_ID,
};
pub use display::DisplayingMode;
pub use error::SerialError;
pub use serial::{
    init_outcome, init_setup, read_setup, transfer_outcome, write_setup, ControlSetup, SerialUsb,
};
pub use usb::{UsbDevice, UsbHandle};
