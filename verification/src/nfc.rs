//! The NFC transport: a device handle owned by value, its channel, and
//! the netlink request framing that the platform's NFC driver speaks.
//! Driving the wire itself is the host application's part; the channel
//! reports the transport unavailable until a driver backs it.

use vstd::prelude::*;

use crate::bytes::push_all;
use crate::ctap1::{ApduRequest, ApduResponse};
use crate::errors::{Error, TransportError};
use crate::transport::{
    Channel, ChannelStatus, CborRequest, CborResponse, SupportedProtocols, Transport,
};

verus! {

/// The NFC transport marker.
pub struct Nfc {}

impl Transport for Nfc {

}

/// An NFC device handle: constructed by value and moved, never
/// self-referential.
pub struct NfcDevice {
    pub name: String,
    pub connstring: String,
}

impl NfcDevice {
    /// Build a device handle from its adapter name and connection string.
    pub fn new(name: &str, connstring: &str) -> (r: NfcDevice)
        ensures
            r.name@ == name@,
            r.connstring@ == connstring@,
    {
        NfcDevice { name: name.to_owned(), connstring: connstring.to_owned() }
    }

    /// Open a channel borrowing this device.
    pub fn channel<'d>(&'d mut self) -> (r: Result<NfcChannel<'d>, Error>)
        ensures
            r is Ok,
    {
        NfcChannel::new(&*self)
    }

    /// No discoverability before the time of operation: both protocols
    /// are assumed until an exchange says otherwise.
    pub fn supported_protocols(&mut self) -> (r: Result<SupportedProtocols, Error>)
        ensures
            r matches Ok(s) && s.u2f && s.fido2,
    {
        Ok(SupportedProtocols::all())
    }
}

/// Enumerate NFC devices. Enumeration needs the platform's NFC netlink
/// driver, which the host application supplies; the library itself has
/// none to offer.
pub fn list_devices() -> (r: Result<Vec<NfcDevice>, Error>)
    ensures
        r == Err::<Vec<NfcDevice>, Error>(Error::Transport(TransportError::TransportUnavailable)),
{
    Err(Error::Transport(TransportError::TransportUnavailable))
}

/// An NFC channel borrowing its device.
pub struct NfcChannel<'d> {
    pub device: &'d NfcDevice,
}

impl<'d> NfcChannel<'d> {
    /// Open a channel on a device.
    pub fn new(device: &'d NfcDevice) -> (r: Result<NfcChannel<'d>, Error>)
        ensures
            r is Ok,
    {
        Ok(NfcChannel { device })
    }
}

impl<'d> Channel for NfcChannel<'d> {
    fn supported_protocols(&mut self) -> (r: Result<SupportedProtocols, Error>) {
        // No discoverability until the time of operation.
        Ok(SupportedProtocols::all())
    }

    fn status(&self) -> (r: ChannelStatus) {
        ChannelStatus::Ready
    }

    fn close(&mut self) {
    }

    fn apdu_send(&mut self, _request: &ApduRequest, _timeout_ms: u32) -> (r: Result<(), Error>) {
        // The APDU wire needs the platform's NFC driver.
        Err(Error::Transport(TransportError::TransportUnavailable))
    }

    fn apdu_recv(&mut self, _timeout_ms: u32) -> (r: Result<ApduResponse, Error>) {
        Err(Error::Transport(TransportError::TransportUnavailable))
    }

    fn cbor_send(&mut self, _request: &CborRequest, _timeout_ms: u32) -> (r: Result<(), Error>) {
        Err(Error::Transport(TransportError::TransportUnavailable))
    }

    fn cbor_recv(&mut self, _timeout_ms: u32) -> (r: Result<CborResponse, Error>) {
        Err(Error::Transport(TransportError::TransportUnavailable))
    }
}

/// The bytes of a 32-bit value in the host order of the netlink wire
/// (little-endian on every platform this library drives).
pub open spec fn spec_u32_le(v: int) -> Seq<u8> {
    seq![(v % 256) as u8, ((v / 256) % 256) as u8, ((v / 65536) % 256) as u8, ((v / 16777216)
        % 256) as u8]
}

/// The bytes of a 16-bit value in the same order.
pub open spec fn spec_u16_le(v: int) -> Seq<u8> {
    seq![(v % 256) as u8, ((v / 256) % 256) as u8]
}

/// A netlink message: the 16-byte header
/// `len (u32) | type (u16) | flags (u16) | seq (u32) | pid (u32)` with
/// `len` covering header and payload, then the payload.
pub open spec fn spec_netlink_message(
    msg_type: u16,
    flags: u16,
    seq_no: u32,
    pid: u32,
    payload: Seq<u8>,
) -> Seq<u8> {
    spec_u32_le(16 + payload.len() as int) + spec_u16_le(msg_type as int) + spec_u16_le(
        flags as int,
    ) + spec_u32_le(seq_no as int) + spec_u32_le(pid as int) + payload
}

/// Frame one netlink request: header then payload. The payload is bounded
/// so the 32-bit length cannot wrap.
pub fn netlink_message(
    msg_type: u16,
    flags: u16,
    seq_no: u32,
    pid: u32,
    payload: &Vec<u8>,
) -> (r: Vec<u8>)
    requires
        payload@.len() <= 0xFFFF,
    ensures
        r@ == spec_netlink_message(msg_type, flags, seq_no, pid, payload@),
{
    let len: u32 = 16 + payload.len() as u32;
    let mut out: Vec<u8> = Vec::new();
    push_u32_le(&mut out, len);
    push_u16_le(&mut out, msg_type);
    push_u16_le(&mut out, flags);
    push_u32_le(&mut out, seq_no);
    push_u32_le(&mut out, pid);
    push_all(&mut out, payload.as_slice());
    assert(out@ =~= spec_netlink_message(msg_type, flags, seq_no, pid, payload@));
    out
}

/// Append a 32-bit value in netlink order.
fn push_u32_le(out: &mut Vec<u8>, v: u32)
    ensures
        final(out)@ == old(out)@ + spec_u32_le(v as int),
{
    out.push((v % 256) as u8);
    out.push(((v / 256) % 256) as u8);
    out.push(((v / 65536) % 256) as u8);
    out.push(((v / 16777216) % 256) as u8);
    assert(out@ =~= old(out)@ + spec_u32_le(v as int));
}

/// Append a 16-bit value in netlink order.
fn push_u16_le(out: &mut Vec<u8>, v: u16)
    ensures
        final(out)@ == old(out)@ + spec_u16_le(v as int),
{
    out.push((v % 256) as u8);
    out.push(((v / 256) % 256) as u8);
    assert(out@ =~= old(out)@ + spec_u16_le(v as int));
}

/// The netlink request that asks the NFC subsystem for its device list:
/// a DONE-typed request frame with a four-byte zero payload.
pub fn netlink_get_device_list_request() -> (r: Vec<u8>)
    ensures
        r@ == spec_netlink_message(3, 1, 0, 0, seq![0u8, 0u8, 0u8, 0u8]),
{
    let mut payload: Vec<u8> = Vec::new();
    payload.push(0u8);
    payload.push(0u8);
    payload.push(0u8);
    payload.push(0u8);
    assert(payload@ =~= seq![0u8, 0u8, 0u8, 0u8]);
    netlink_message(3, 1, 0, 0, &payload)
}

} // verus!
