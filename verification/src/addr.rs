//! The address model: an IPv4 or IPv6 network address held as the integer
//! whose big-endian bytes are the address octets, together with the prefix
//! masks and the mask/network bit-level lemmas.

use vstd::prelude::*;

verus! {

/// A network address. `V4(x)` holds the 32-bit value whose big-endian bytes
/// are the four octets; `V6(x)` the 128-bit value likewise.
#[derive(Clone, Copy, PartialEq, Eq, Structural, Debug)]
pub enum IpAddress {
    V4(u32),
    V6(u128),
}

impl IpAddress {
    /// Bit width of the address family.
    pub open spec fn spec_width(self) -> u8 {
        match self {
            IpAddress::V4(_) => 32,
            IpAddress::V6(_) => 128,
        }
    }

    pub fn is_v4(&self) -> (r: bool)
        ensures
            r == (self is V4),
    {
        match self {
            IpAddress::V4(_) => true,
            IpAddress::V6(_) => false,
        }
    }

    pub fn width(&self) -> (r: u8)
        ensures
            r == self.spec_width(),
    {
        match self {
            IpAddress::V4(_) => 32,
            IpAddress::V6(_) => 128,
        }
    }

    /// The all-zero address of the same family.
    pub fn unspecified_of_family(v4: bool) -> (r: IpAddress)
        ensures
            r == if v4 { IpAddress::V4(0) } else { IpAddress::V6(0) },
    {
        if v4 {
            IpAddress::V4(0)
        } else {
            IpAddress::V6(0)
        }
    }
}

/// The IPv4 mask with `prefix` leading one bits.
pub open spec fn mask_v4(prefix: u8) -> u32 {
    if prefix == 0 {
        0u32
    } else {
        (!0u32) << ((32 - prefix) as u32)
    }
}

/// The IPv6 mask with `prefix` leading one bits.
pub open spec fn mask_v6(prefix: u8) -> u128 {
    if prefix == 0 {
        0u128
    } else {
        (!0u128) << ((128 - prefix) as u128)
    }
}

pub fn compute_mask_v4(prefix: u8) -> (r: u32)
    requires
        prefix <= 32,
    ensures
        r == mask_v4(prefix),
{
    if prefix == 0 {
        0
    } else {
        (!0u32) << ((32 - prefix) as u32)
    }
}

pub fn compute_mask_v6(prefix: u8) -> (r: u128)
    requires
        prefix <= 128,
    ensures
        r == mask_v6(prefix),
{
    if prefix == 0 {
        0
    } else {
        (!0u128) << ((128 - prefix) as u128)
    }
}

/// The address masked to its prefix boundary.
pub open spec fn network_of(addr: IpAddress, prefix: u8) -> IpAddress {
    match addr {
        IpAddress::V4(ip) => IpAddress::V4(ip & mask_v4(prefix)),
        IpAddress::V6(ip) => IpAddress::V6(ip & mask_v6(prefix)),
    }
}

pub fn compute_network(addr: &IpAddress, prefix: u8) -> (r: IpAddress)
    requires
        prefix <= addr.spec_width(),
    ensures
        r == network_of(*addr, prefix),
{
    match addr {
        IpAddress::V4(ip) => IpAddress::V4(*ip & compute_mask_v4(prefix)),
        IpAddress::V6(ip) => IpAddress::V6(*ip & compute_mask_v6(prefix)),
    }
}

/// Bit `i` of a 32-bit value, counting from the least significant bit.
pub open spec fn bit_v4(x: u32, i: u32) -> bool {
    (x >> i) & 1 == 1
}

/// Bit `i` of a 128-bit value, counting from the least significant bit.
pub open spec fn bit_v6(x: u128, i: u128) -> bool {
    (x >> i) & 1 == 1
}

/// The IPv4 mask has a one exactly at the bit positions at or above
/// `32 - prefix`: the `prefix` leading bits.
pub proof fn lemma_mask_v4_bits(prefix: u8, i: u32)
    requires
        prefix <= 32,
        i < 32,
    ensures
        bit_v4(mask_v4(prefix), i) == (32 - prefix <= i),
{
    assert(bit_v4(mask_v4(prefix), i) == (32 - prefix <= i)) by (bit_vector)
        requires
            prefix <= 32 && i < 32,
    ;
}

/// The IPv6 mask has a one exactly at the bit positions at or above
/// `128 - prefix`.
pub proof fn lemma_mask_v6_bits(prefix: u8, i: u128)
    requires
        prefix <= 128,
        i < 128,
    ensures
        bit_v6(mask_v6(prefix), i) == (128 - prefix <= i),
{
    assert(bit_v6(mask_v6(prefix), i) == (128 - prefix <= i)) by (bit_vector)
        requires
            prefix <= 128 && i < 128,
    ;
}

/// Masking to the prefix boundary zeroes exactly the low `32 - prefix` bits
/// and keeps the others.
pub proof fn lemma_network_v4_bits(ip: u32, prefix: u8, i: u32)
    requires
        prefix <= 32,
        i < 32,
    ensures
        i < 32 - prefix ==> !bit_v4(ip & mask_v4(prefix), i),
        32 - prefix <= i ==> bit_v4(ip & mask_v4(prefix), i) == bit_v4(ip, i),
{
    assert((i < 32 - prefix ==> !bit_v4(ip & mask_v4(prefix), i)) && (32 - prefix <= i
        ==> bit_v4(ip & mask_v4(prefix), i) == bit_v4(ip, i))) by (bit_vector)
        requires
            prefix <= 32 && i < 32,
    ;
}

/// Masking to the prefix boundary zeroes exactly the low `128 - prefix` bits
/// and keeps the others.
pub proof fn lemma_network_v6_bits(ip: u128, prefix: u8, i: u128)
    requires
        prefix <= 128,
        i < 128,
    ensures
        i < 128 - prefix ==> !bit_v6(ip & mask_v6(prefix), i),
        128 - prefix <= i ==> bit_v6(ip & mask_v6(prefix), i) == bit_v6(ip, i),
{
    assert((i < 128 - prefix ==> !bit_v6(ip & mask_v6(prefix), i)) && (128 - prefix <= i
        ==> bit_v6(ip & mask_v6(prefix), i) == bit_v6(ip, i))) by (bit_vector)
        requires
            prefix <= 128 && i < 128,
    ;
}

/// Masking an already-masked value changes nothing.
pub proof fn lemma_network_v4_idempotent(ip: u32, prefix: u8)
    ensures
        (ip & mask_v4(prefix)) & mask_v4(prefix) == ip & mask_v4(prefix),
{
    let m = mask_v4(prefix);
    assert((ip & m) & m == ip & m) by (bit_vector);
}

/// Masking an already-masked value changes nothing.
pub proof fn lemma_network_v6_idempotent(ip: u128, prefix: u8)
    ensures
        (ip & mask_v6(prefix)) & mask_v6(prefix) == ip & mask_v6(prefix),
{
    let m = mask_v6(prefix);
    assert((ip & m) & m == ip & m) by (bit_vector);
}

} // verus!
