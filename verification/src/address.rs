//! Network addresses of devices.

use vstd::prelude::*;

verus! {

/// Most octets in a MAC address or in the address of a remote station.
pub const MAX_MAC_LEN: usize = 7;

/// The address of a device: its MAC address and, for a device behind a
/// router, the number of its network and its address there. Of each array
/// the first `mac_len` or `len` octets count, seven at most.
#[derive(Clone, Copy, Debug)]
pub struct Address {
    pub mac_len: u8,
    pub mac: [u8; 7],
    pub net: u16,
    pub len: u8,
    pub adr: [u8; 7],
}

/// The first `len` of seven octets, all seven where `len` is larger.
pub open spec fn octets(bytes: [u8; 7], len: u8) -> Seq<u8> {
    bytes@.take(
        if len < MAX_MAC_LEN {
            len as int
        } else {
            MAX_MAC_LEN as int
        },
    )
}

impl Address {
    /// Whether two addresses are the same, as the BACnet stack compares
    /// addresses in `bacnet_address_same`. The network number, the length of
    /// the station address and its counted octets always count. The length
    /// of the MAC address and its counted octets count on the local network
    /// only, that is where the network number is 0. Octets beyond those
    /// counted never count.
    pub open spec fn same_as(self, other: Address) -> bool {
        &&& self.net == other.net
        &&& self.len == other.len
        &&& octets(self.adr, self.len) == octets(other.adr, other.len)
        &&& self.net == 0 ==> self.mac_len == other.mac_len && octets(self.mac, self.mac_len)
            == octets(other.mac, other.mac_len)
    }
}

/// Whether the octets that count are the same in both arrays.
fn same_octets(a: &[u8; 7], a_len: u8, b: &[u8; 7], b_len: u8) -> (same: bool)
    ensures
        same == (octets(*a, a_len) == octets(*b, b_len)),
{
    let n: usize = if (a_len as usize) < MAX_MAC_LEN {
        a_len as usize
    } else {
        MAX_MAC_LEN
    };
    let m: usize = if (b_len as usize) < MAX_MAC_LEN {
        b_len as usize
    } else {
        MAX_MAC_LEN
    };
    if n != m {
        assert(octets(*a, a_len).len() != octets(*b, b_len).len());
        return false;
    }
    let mut i: usize = 0;
    while i < n
        invariant
            i <= n <= 7,
            n == m,
            octets(*a, a_len) == a@.take(n as int),
            octets(*b, b_len) == b@.take(n as int),
            forall|k: int| 0 <= k < i ==> a@[k] == b@[k],
        decreases n - i,
    {
        if a[i] != b[i] {
            assert(a@.take(n as int)[i as int] != b@.take(n as int)[i as int]);
            return false;
        }
        i += 1;
    }
    assert(a@.take(n as int) =~= b@.take(n as int));
    true
}

impl Address {
    /// Whether two addresses are the same: see [`Address::same_as`].
    pub fn same(&self, other: &Address) -> (same: bool)
        ensures
            same == self.same_as(*other),
    {
        if self.net != other.net || self.len != other.len {
            return false;
        }
        if !same_octets(&self.adr, self.len, &other.adr, other.len) {
            return false;
        }
        if self.net == 0 {
            self.mac_len == other.mac_len && same_octets(
                &self.mac,
                self.mac_len,
                &other.mac,
                other.mac_len,
            )
        } else {
            true
        }
    }
}

/// To be the same address is an equivalence: every address is the same as
/// itself, the order of the two does not matter, and two addresses that are
/// the same as a third are the same.
pub proof fn lemma_same_is_an_equivalence(a: Address, b: Address, c: Address)
    ensures
        a.same_as(a),
        a.same_as(b) == b.same_as(a),
        a.same_as(b) && b.same_as(c) ==> a.same_as(c),
{
}

} // verus!
