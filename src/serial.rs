//! The three vendor control transfers that drive the adapter's serial line.
use vstd::prelude::*;
use crate::codec::{encode, MAX_PAYLOAD, PACKET_SIZE};
use crate::error::SerialError;
use crate::usb::{read_control, write_control, UsbHandle};

verus! {

/// Request type bits of a vendor request.
pub const USB_TYPE_VENDOR: u8 = 0x40;

/// Direction bit of a request: device to host.
pub const DIRECTION_IN: u8 = 0x80;

/// Vendor request, device to host.
pub const REQUEST_READ: u8 = USB_TYPE_VENDOR | DIRECTION_IN;

/// Vendor request, host to device.
pub const REQUEST_WRITE: u8 = USB_TYPE_VENDOR;

/// Request code: set the serial parameters.
pub const FUNC_SETSERIOS: u8 = 11;

/// Request code: read one packet from the serial line.
pub const FUNC_READSER: u8 = 12;

/// Request code: write one packet to the serial line.
pub const FUNC_WRITESER: u8 = 13;

/// Parity mode code: no parity.
pub const MODE_PARITYN: u8 = 1;

/// Baud rate code: 2400 baud.
pub const MODE_SETBAUD2400: u8 = 0x13;

/// Value field of the parameter request: packet size in the high byte, baud code in the low byte.
pub const SETSERIOS_VALUE: u16 = (8 << 8) | 0x13;

/// Timeout of every control transfer, in seconds.
pub const TIMEOUT_SECS: u64 = 2;

/// The setup fields of a control transfer: `bmRequestType`, `bRequest`,
/// `wValue` and `wIndex`.
#[derive(Clone, Copy, Debug, PartialEq, Eq, Structural)]
pub struct ControlSetup {
    pub request_type: u8,
    pub request: u8,
    pub value: u16,
    pub index: u16,
}

/// Setup of the parameter request: device to host, vendor, code 11, packet
/// size 8 and baud code 0x13 in the value, no parity in the index.
pub fn init_setup() -> (s: ControlSetup)
    ensures
        s == (ControlSetup { request_type: 0xc0, request: 11, value: 0x0813, index: 1 }),
{
    assert(0x40u8 | 0x80u8 == 0xc0u8) by (bit_vector);
    assert((8u16 << 8u16) | 0x13u16 == 0x0813u16) by (bit_vector);
    ControlSetup {
        request_type: REQUEST_READ,
        request: FUNC_SETSERIOS,
        value: SETSERIOS_VALUE,
        index: MODE_PARITYN as u16,
    }
}

/// Setup of the packet read: device to host, vendor, code 12.
pub fn read_setup() -> (s: ControlSetup)
    ensures
        s == (ControlSetup { request_type: 0xc0, request: 12, value: 0, index: 0 }),
{
    assert(0x40u8 | 0x80u8 == 0xc0u8) by (bit_vector);
    ControlSetup { request_type: REQUEST_READ, request: FUNC_READSER, value: 0, index: 0 }
}

/// Setup of the packet write: host to device, vendor, code 13.
pub fn write_setup() -> (s: ControlSetup)
    ensures
        s == (ControlSetup { request_type: 0x40, request: 13, value: 0, index: 0 }),
{
    ControlSetup { request_type: REQUEST_WRITE, request: FUNC_WRITESER, value: 0, index: 0 }
}

/// The outcome of a read or write transfer: success whatever the byte count,
/// or the transfer's own error.
pub fn transfer_outcome(transfer: Result<usize, rusb::Error>) -> (r: Result<(), SerialError>)
    ensures
        r is Ok <==> transfer is Ok,
        transfer matches Err(e) ==> r == Err::<(), SerialError>(SerialError::Transfer(e)),
{
    match transfer {
        Ok(_) => Ok(()),
        Err(e) => Err(SerialError::Transfer(e)),
    }
}

/// What the adapter echoes when it accepts the serial parameters.
pub open spec fn init_echo() -> Seq<u8> {
    seq![MODE_SETBAUD2400, PACKET_SIZE as u8, MODE_PARITYN, 0u8]
}

/// Decides the outcome of the parameter request from the transfer's result
/// and the four bytes received: success exactly when 4 bytes came and they
/// are the echo `[0x13, 8, 1, 0]`.
pub fn init_outcome(transfer: Result<usize, rusb::Error>, reply: &[u8; 4]) -> (r: Result<
    (),
    SerialError,
>)
    ensures
        r is Ok <==> (transfer == Ok::<usize, rusb::Error>(4) && reply@ == init_echo()),
        transfer matches Err(e) ==> r == Err::<(), SerialError>(SerialError::Transfer(e)),
        transfer is Ok && r is Err ==> r == Err::<(), SerialError>(SerialError::ProtocolMismatch),
{
    match transfer {
        Err(e) => Err(SerialError::Transfer(e)),
        Ok(n) => {
            if n == 4 && reply[0] == MODE_SETBAUD2400 && reply[1] == PACKET_SIZE as u8 && reply[2]
                == MODE_PARITYN && reply[3] == 0 {
                assert(reply@ =~= init_echo());
                Ok(())
            } else {
                Err(SerialError::ProtocolMismatch)
            }
        },
    }
}

/// The serial line of the adapter, reached through an open device handle.
/// The caller owns the handle and calls `init_serial_usb` before reading or writing.
pub trait SerialUsb {
    /// Sets the serial parameters (2400 baud, no parity, 8-byte packets) and
    /// checks the adapter's echo.
    fn init_serial_usb(&self) -> (r: Result<(), SerialError>)
        ensures
            r matches Err(e) ==> (e is Transfer || e is ProtocolMismatch),
    ;

    /// Reads one packet into `buffer`; the bytes received are not counted.
    fn read_serial_usb(&self, buffer: &mut [u8; 8]) -> (r: Result<(), SerialError>)
        ensures
            r matches Err(e) ==> e is Transfer,
    ;

    /// Sends `buffer` as one packet, prefixed with its length. A payload over
    /// 7 bytes is refused before anything is sent.
    fn write_serial_usb(&self, buffer: &[u8]) -> (r: Result<(), SerialError>)
        ensures
            buffer@.len() > MAX_PAYLOAD ==> r == Err::<(), SerialError>(SerialError::PayloadTooLarge),
            buffer@.len() <= MAX_PAYLOAD ==> (r matches Err(e) ==> e is Transfer),
    ;
}

impl SerialUsb for UsbHandle {
    fn init_serial_usb(&self) -> (r: Result<(), SerialError>) {
        let setup = init_setup();
        let mut reply = [0u8; 4];
        let transfer = read_control(self, &setup, &mut reply, TIMEOUT_SECS);
        init_outcome(transfer, &reply)
    }

    fn read_serial_usb(&self, buffer: &mut [u8; 8]) -> (r: Result<(), SerialError>) {
        let setup = read_setup();
        let transfer = read_control(self, &setup, buffer, TIMEOUT_SECS);
        transfer_outcome(transfer)
    }

    fn write_serial_usb(&self, buffer: &[u8]) -> (r: Result<(), SerialError>) {
        let wire = encode(buffer)?;
        let setup = write_setup();
        let transfer = write_control(self, &setup, wire.as_slice(), TIMEOUT_SECS);
        transfer_outcome(transfer)
    }
}

} // verus!
