//! Device addresses and the devices that discovery reports.

use crate::eir::MAX_NAME_LEN;
use vstd::prelude::*;
use vstd::std_specs::cmp::PartialEqSpec;
use vstd::utf8::*;

verus! {

/// How an address was assigned. It tells addresses apart for filtering only:
/// two addresses with the same bytes name the same device.
#[derive(Clone, Copy, Debug, PartialEq, Eq, Structural)]
pub enum AddressKind {
    Public,
    Random,
    ResolvablePrivateOrPublic,
    ResolvablePrivateOrRandom,
    Anonymous,
}

/// A six-byte hardware address with its kind.
#[derive(Clone, Copy, Debug)]
pub struct DeviceAddress {
    pub raw: [u8; 6],
    pub kind: AddressKind,
}

/// The number that six address bytes spell, first byte lowest. It stands for
/// the address wherever addresses are compared or remembered.
pub open spec fn key_of(bytes: Seq<u8>) -> u64 {
    (bytes[0] + 0x100 * bytes[1] + 0x1_0000 * bytes[2] + 0x100_0000 * bytes[3] + 0x1_0000_0000
        * bytes[4] + 0x100_0000_0000 * bytes[5]) as u64
}

/// A number splits in one way into a lowest byte and the rest.
proof fn lemma_low_byte(x: int, p: int, y: int, q: int)
    requires
        0 <= x < 0x100,
        0 <= y < 0x100,
        x + 0x100 * p == y + 0x100 * q,
    ensures
        x == y,
        p == q,
{
}

/// Distinct addresses have distinct keys, and every key fits in 48 bits.
pub proof fn lemma_key_of_injective(a: Seq<u8>, b: Seq<u8>)
    requires
        a.len() == 6,
        b.len() == 6,
    ensures
        0 <= key_of(a) < 0x1_0000_0000_0000,
        key_of(a) == key_of(b) <==> a == b,
{
    if key_of(a) == key_of(b) {
        let a4: int = a[4] + 0x100 * a[5];
        let b4: int = b[4] + 0x100 * b[5];
        let a3: int = a[3] + 0x100 * a4;
        let b3: int = b[3] + 0x100 * b4;
        let a2: int = a[2] + 0x100 * a3;
        let b2: int = b[2] + 0x100 * b3;
        let a1: int = a[1] + 0x100 * a2;
        let b1: int = b[1] + 0x100 * b2;
        lemma_low_byte(a[0] as int, a1, b[0] as int, b1);
        lemma_low_byte(a[1] as int, a2, b[1] as int, b2);
        lemma_low_byte(a[2] as int, a3, b[2] as int, b3);
        lemma_low_byte(a[3] as int, a4, b[3] as int, b4);
        lemma_low_byte(a[4] as int, a[5] as int, b[4] as int, b[5] as int);
        assert(a =~= b);
    }
}

impl DeviceAddress {
    /// The six bytes of the address.
    pub open spec fn bytes(&self) -> Seq<u8> {
        self.raw@
    }

    /// The key that stands for this address.
    pub open spec fn key(&self) -> u64 {
        key_of(self.raw@)
    }

    /// An address of the given kind.
    pub fn new(raw: [u8; 6], kind: AddressKind) -> (r: Self)
        ensures
            r.raw == raw,
            r.kind == kind,
    {
        DeviceAddress { raw, kind }
    }

    /// A public address, the kind that Bluetooth Classic inquiry reports.
    pub fn public(raw: [u8; 6]) -> (r: Self)
        ensures
            r.raw == raw,
            r.kind == AddressKind::Public,
    {
        DeviceAddress { raw, kind: AddressKind::Public }
    }

    /// Computes the key of the address.
    pub fn dedup_key(&self) -> (k: u64)
        ensures
            k == self.key(),
    {
        self.raw[0] as u64 + 0x100 * (self.raw[1] as u64) + 0x1_0000 * (self.raw[2] as u64)
            + 0x100_0000 * (self.raw[3] as u64) + 0x1_0000_0000 * (self.raw[4] as u64)
            + 0x100_0000_0000 * (self.raw[5] as u64)
    }
}

impl PartialEq for DeviceAddress {
    fn eq(&self, other: &Self) -> (r: bool) {
        self.dedup_key() == other.dedup_key()
    }
}

impl Eq for DeviceAddress {

}

impl vstd::std_specs::cmp::PartialEqSpecImpl for DeviceAddress {
    open spec fn obeys_eq_spec() -> bool {
        true
    }

    open spec fn eq_spec(&self, other: &Self) -> bool {
        self.key() == other.key()
    }
}

/// Equality of addresses is equality of their bytes, whatever their kinds.
pub proof fn lemma_eq_is_same_bytes(a: DeviceAddress, b: DeviceAddress)
    ensures
        a.eq_spec(&b) <==> a.bytes() == b.bytes(),
{
    lemma_key_of_injective(a.raw@, b.raw@);
}

/// A device that discovery reports: its address and what the controller told
/// about it.
#[derive(Clone, Debug)]
pub struct DiscoveredDevice {
    pub address: DeviceAddress,
    pub class_of_device: Option<[u8; 3]>,
    /// Signal strength in dBm.
    pub rssi: Option<i8>,
    pub name: Option<String>,
}

/// What a reported device holds, as plain values.
pub struct DeviceModel {
    pub address: Seq<u8>,
    pub kind: AddressKind,
    pub class_of_device: Option<Seq<u8>>,
    pub rssi: Option<int>,
    pub name: Option<Seq<char>>,
}

impl View for DiscoveredDevice {
    type V = DeviceModel;

    open spec fn view(&self) -> DeviceModel {
        DeviceModel {
            address: self.address.raw@,
            kind: self.address.kind,
            class_of_device: match self.class_of_device {
                Some(c) => Some(c@),
                None => None,
            },
            rssi: match self.rssi {
                Some(v) => Some(v as int),
                None => None,
            },
            name: match self.name {
                Some(s) => Some(s@),
                None => None,
            },
        }
    }
}

impl DeviceModel {
    /// Whether the device is one that discovery can report: six address
    /// bytes, three class bytes where there is a class, and a name within
    /// the limit where there is a name.
    pub open spec fn wf(self) -> bool {
        &&& self.address.len() == 6
        &&& (self.class_of_device matches Some(c) ==> c.len() == 3)
        &&& (self.rssi matches Some(v) ==> -128 <= v <= 127)
        &&& (self.name matches Some(n) ==> encode_utf8(n).len() <= MAX_NAME_LEN)
    }
}

} // verus!
