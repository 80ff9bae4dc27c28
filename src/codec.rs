//! The fixed-size, length-prefixed packet format exchanged with the adapter.
use vstd::prelude::*;
use crate::error::SerialError;

verus! {

/// Size in bytes of every packet on the wire.
pub const PACKET_SIZE: usize = 8;

/// Largest payload that one packet can carry (one byte goes to the length).
pub const MAX_PAYLOAD: usize = 7;

/// The payload that a well-formed packet declares: bytes `1..=L`, where `L` is byte 0.
pub open spec fn packet_payload(packet: Seq<u8>) -> Seq<u8>
    recommends
        packet.len() == PACKET_SIZE,
        packet[0] <= MAX_PAYLOAD,
{
    packet.subrange(1, packet[0] as int + 1)
}

/// The wire form of a payload: its length, then its bytes.
pub open spec fn framed(payload: Seq<u8>) -> Seq<u8> {
    seq![payload.len() as u8] + payload
}

/// Returns the payload of a packet, borrowed from the packet itself.
///
/// The declared length (byte 0) must be at most 7: the adapter guarantees it.
pub fn bits_from_buffer(bytes: &[u8; PACKET_SIZE]) -> (r: &[u8])
    requires
        bytes@[0] <= MAX_PAYLOAD,
    ensures
        r@ == packet_payload(bytes@),
{
    let len = bytes[0] as usize;
    &bytes[1..len + 1]
}

/// Builds the wire buffer for a payload: its length, then its bytes.
/// A payload longer than 7 bytes is refused before any buffer is built.
pub fn encode(payload: &[u8]) -> (r: Result<Vec<u8>, SerialError>)
    ensures
        payload@.len() <= MAX_PAYLOAD ==> (r matches Ok(v) && v@ == framed(payload@)),
        payload@.len() > MAX_PAYLOAD ==> r == Err::<Vec<u8>, SerialError>(SerialError::PayloadTooLarge),
{
    if payload.len() > MAX_PAYLOAD {
        return Err(SerialError::PayloadTooLarge);
    }
    let mut wire: Vec<u8> = Vec::with_capacity(payload.len() + 1);
    wire.push(payload.len() as u8);
    let mut i: usize = 0;
    while i < payload.len()
        invariant
            i <= payload@.len(),
            payload@.len() <= MAX_PAYLOAD,
            wire@ == seq![payload@.len() as u8] + payload@.subrange(0, i as int),
        decreases payload@.len() - i,
    {
        wire.push(payload[i]);
        i = i + 1;
    }
    assert(payload@.subrange(0, payload@.len() as int) =~= payload@);
    Ok(wire)
}

} // verus!
