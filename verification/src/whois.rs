//! Who-Is: the search for the devices on the network.
//!
//! A search broadcasts one request and then listens for a while. Every
//! device that answers is put on a list, and the search ends by taking the
//! list. Whoever drives the search transmits and polls.

use crate::address::Address;
use crate::errors::BACnetErr;
use vstd::prelude::*;

verus! {

/// How long a search listens where nothing else is asked for, in
/// milliseconds.
pub const DEFAULT_TIMEOUT_MS: u64 = 3000;

/// The instance number that stands for every device.
pub const ANY_INSTANCE: i32 = -1;

/// A device that answered a Who-Is with an I-Am.
#[derive(Clone, Copy, Debug, PartialEq, Eq)]
pub struct IAmDevice {
    pub device_id: u32,
    pub max_apdu: u32,
    pub vendor_id: u16,
    pub mac_addr: [u8; 6],
    pub network_number: u16,
    pub addr: [u8; 6],
}

/// What an I-Am says of the device that sent it.
#[derive(Clone, Copy, Debug, PartialEq, Eq)]
pub struct IAm {
    pub device_id: u32,
    pub max_apdu: u32,
    pub vendor_id: u16,
}

/// Where a search is broadcast.
#[derive(Clone, Copy, Debug, PartialEq, Eq)]
pub enum Destination {
    /// On every network.
    Global,
    /// On the network of this number.
    Network(u16),
}

/// The destination of a search that is restricted as `subnet` says.
pub open spec fn destination_of(subnet: Option<u16>) -> Destination {
    match subnet {
        Some(net) => Destination::Network(net),
        None => Destination::Global,
    }
}

/// A search for devices.
#[derive(Clone, Copy, Debug, PartialEq, Eq)]
pub struct WhoIs {
    /// How long the search listens for answers, in milliseconds.
    pub timeout: u64,
    /// The network to which the search is restricted, if it is.
    pub subnet: Option<u16>,
}

/// Six octets: the first `len` of `bytes`, then zeros.
pub open spec fn six_octets(bytes: [u8; 7], len: u8) -> Seq<u8> {
    Seq::new(
        6,
        |i: int|
            if i < len {
                bytes@[i]
            } else {
                0u8
            },
    )
}

/// The entry of a device that announced itself with `reply` from `src`: its
/// MAC address and, where it sits on another network, its address there.
pub open spec fn announced(reply: IAm, src: Address, device: IAmDevice) -> bool {
    &&& device.device_id == reply.device_id
    &&& device.max_apdu == reply.max_apdu
    &&& device.vendor_id == reply.vendor_id
    &&& device.mac_addr@ == six_octets(src.mac, src.mac_len)
    &&& device.network_number == src.net
    &&& device.addr@ == six_octets(
        src.adr,
        if src.net > 0 {
            src.len
        } else {
            0
        },
    )
}

/// One of six octets: that of `bytes` where `i` is below `len`, else zero.
fn octet(bytes: &[u8; 7], len: u8, i: usize) -> (byte: u8)
    requires
        i < 6,
    ensures
        byte == six_octets(*bytes, len)[i as int],
{
    if i < len as usize {
        bytes[i]
    } else {
        0
    }
}

/// Six octets: the first `len` of `bytes`, then zeros.
fn first_six(bytes: &[u8; 7], len: u8) -> (six: [u8; 6])
    ensures
        six@ == six_octets(*bytes, len),
{
    let six: [u8; 6] = [
        octet(bytes, len, 0),
        octet(bytes, len, 1),
        octet(bytes, len, 2),
        octet(bytes, len, 3),
        octet(bytes, len, 4),
        octet(bytes, len, 5),
    ];
    assert(six@ =~= six_octets(*bytes, len));
    six
}

impl IAmDevice {
    /// The entry of the device that sent `reply` from `src`. The addresses
    /// of an entry have six octets, so `src` may have no more.
    pub fn new(reply: IAm, src: &Address) -> (device: IAmDevice)
        requires
            src.mac_len <= 6,
            src.net > 0 ==> src.len <= 6,
        ensures
            announced(reply, *src, device),
    {
        let adr_len: u8 = if src.net > 0 {
            src.len
        } else {
            0
        };
        IAmDevice {
            device_id: reply.device_id,
            max_apdu: reply.max_apdu,
            vendor_id: reply.vendor_id,
            mac_addr: first_six(&src.mac, src.mac_len),
            network_number: src.net,
            addr: first_six(&src.adr, adr_len),
        }
    }
}

/// Handles an I-Am from `src`: the device is put last on the list. `reply`
/// is `None` where the I-Am could not be decoded, and then nothing changes.
pub fn i_am_handler(discovered: &mut Vec<IAmDevice>, reply: Option<IAm>, src: &Address)
    requires
        src.mac_len <= 6,
        src.net > 0 ==> src.len <= 6,
    ensures
        match reply {
            Some(reply) => {
                &&& final(discovered)@.len() == old(discovered)@.len() + 1
                &&& final(discovered)@.drop_last() == old(discovered)@
                &&& announced(reply, *src, final(discovered)@.last())
            },
            None => final(discovered)@ == old(discovered)@,
        },
{
    match reply {
        Some(reply) => {
            let device = IAmDevice::new(reply, src);
            discovered.push(device);
            assert(discovered@.drop_last() =~= old(discovered)@);
        },
        None => {},
    }
}

impl WhoIs {
    /// A search that listens for three seconds, on every network.
    pub fn new() -> (who_is: WhoIs)
        ensures
            who_is == (WhoIs { timeout: DEFAULT_TIMEOUT_MS, subnet: None }),
    {
        WhoIs { timeout: DEFAULT_TIMEOUT_MS, subnet: None }
    }

    /// Sets how long the search listens for answers, in milliseconds.
    pub fn timeout(self, timeout: u64) -> (who_is: WhoIs)
        ensures
            who_is == (WhoIs { timeout, ..self }),
    {
        WhoIs { timeout, ..self }
    }

    /// Restricts the search to one network, or to none.
    pub fn subnet(self, subnet: Option<u16>) -> (who_is: WhoIs)
        ensures
            who_is == (WhoIs { subnet, ..self }),
    {
        WhoIs { subnet, ..self }
    }

    /// Where the request is broadcast.
    pub fn destination(&self) -> (destination: Destination)
        ensures
            destination == destination_of(self.subnet),
    {
        match self.subnet {
            Some(net) => Destination::Network(net),
            None => Destination::Global,
        }
    }

    /// Whether the search goes on listening: as long as less time than its
    /// timeout has passed since the request. `elapsed` is that time in
    /// milliseconds, with a millisecond that has only begun not counted.
    pub fn listening(&self, elapsed: u64) -> (listening: bool)
        ensures
            listening == (elapsed < self.timeout),
    {
        elapsed < self.timeout
    }

    /// Ends the search: takes the devices off the list, in the order in
    /// which they answered, and leaves the list empty.
    pub fn execute(self, discovered: &mut Vec<IAmDevice>) -> (res: Result<
        Vec<IAmDevice>,
        BACnetErr,
    >)
        ensures
            res matches Ok(devices) && devices@ == old(discovered)@,
            final(discovered)@ == Seq::<IAmDevice>::empty(),
    {
        let mut devices: Vec<IAmDevice> = Vec::new();
        core::mem::swap(discovered, &mut devices);
        Ok(devices)
    }
}

impl Default for WhoIs {
    fn default() -> (who_is: WhoIs)
        ensures
            who_is == (WhoIs { timeout: DEFAULT_TIMEOUT_MS, subnet: None }),
    {
        WhoIs::new()
    }
}

} // verus!
