//! The routing-socket transport's translation engine (BSD family): message
//! framing over a fixed header whose field offsets and alignment rule come in
//! as a layout value, the bitmask-selected sockaddr slot walk, netmask and
//! gateway decoding with the scope-id quirk, the dump filters, and the
//! add/delete message encoder with its exact slot ordering.
//!
//! The numeric layouts themselves (header sizes, offsets, rounding words) are
//! the platforms' header files' content and are supplied by the caller; every
//! read here is bounds-checked against the byte buffer, and a row that the
//! kernel would have had to truncate decodes to nothing instead of faulting.

use crate::addr::{bit_v4, bit_v6, IpAddress};
use crate::route::{IfaceResolution, Route, RouteChange, RouteError};
use vstd::prelude::*;
use vstd::slice::slice_subrange;

verus! {

/// The message types of the routing-socket protocol that this library
/// distinguishes.
pub const RTM_ADD: u8 = 1;

pub const RTM_DELETE: u8 = 2;

pub const RTM_CHANGE: u8 = 3;

pub const RTM_GET: u8 = 4;

/// The slot bits of `rtm_addrs` that this library reads and writes.
pub const RTA_DST: u32 = 1;

pub const RTA_GATEWAY: u32 = 2;

pub const RTA_NETMASK: u32 = 4;

/// The address families of the sockaddr slots: IPv4 and the link-layer
/// family are the same number on the whole platform family; the IPv6 number
/// comes in with the layout.
pub const AF_INET: u8 = 2;

pub const AF_LINK: u8 = 18;

/// `RTF_UP | RTF_STATIC`: the flags every request of this library sends.
pub const RT_REQUEST_FLAGS: u32 = 0x801;

/// The fixed layout of one platform's routing-socket messages: the header
/// size, the byte offsets of the fields this library reads and writes (all
/// multi-byte fields little-endian, as the supported machines hold them),
/// the sockaddr rounding words for parsing and for encoding, the expected
/// protocol version, the dump's flag filters, and the link-layer sockaddr
/// size.
#[derive(Clone, Copy, PartialEq, Eq, Structural, Debug)]
pub struct RtLayout {
    pub hdr_len: usize,
    pub off_msglen: usize,
    pub off_version: usize,
    pub off_type: usize,
    pub off_index: usize,
    pub off_flags: usize,
    pub off_addrs: usize,
    pub off_seq: usize,
    pub off_errno: usize,
    /// Offset of a header-length field, on the platform variant that has one.
    pub off_hdrlen: Option<usize>,
    /// Sockaddr rounding word when parsing a message's slots.
    pub parse_word: usize,
    /// Sockaddr rounding word when encoding a request's slots.
    pub encode_word: usize,
    /// Expected `rtm_version`; rows with another version are skipped.
    pub version: u8,
    /// When nonzero, dump rows lacking all of these flags are skipped.
    pub required_flags: u32,
    /// Dump rows with any of these flags are skipped before the error check.
    pub excluded_flags_pre: u32,
    /// Dump rows with any of these flags are skipped after the error check.
    pub excluded_flags_post: u32,
    /// The platform's IPv6 address-family number.
    pub af_inet6: u8,
    /// The platform's link-layer sockaddr size.
    pub sdl_len: usize,
}

impl RtLayout {
    /// The bounds every field access of this module relies on.
    pub open spec fn wf(self) -> bool {
        &&& 4 <= self.hdr_len <= 4096
        &&& self.off_msglen + 2 <= self.hdr_len
        &&& self.off_version < self.hdr_len
        &&& self.off_type < self.hdr_len
        &&& self.off_index + 2 <= self.hdr_len
        &&& self.off_flags + 4 <= self.hdr_len
        &&& self.off_addrs + 4 <= self.hdr_len
        &&& self.off_seq + 4 <= self.hdr_len
        &&& self.off_errno + 4 <= self.hdr_len
        &&& match self.off_hdrlen {
            Some(o) => o + 2 <= self.hdr_len,
            None => true,
        }
        &&& (self.parse_word == 1 || self.parse_word == 2 || self.parse_word == 4
            || self.parse_word == 8 || self.parse_word == 16)
        &&& (self.encode_word == 1 || self.encode_word == 2 || self.encode_word == 4
            || self.encode_word == 8 || self.encode_word == 16)
        &&& 8 <= self.sdl_len <= 255
        &&& self.af_inet6 != 0 && self.af_inet6 != AF_INET && self.af_inet6 != AF_LINK
    }

    /// Decides well-formedness.
    pub fn check_wf(&self) -> (r: bool)
        ensures
            r == self.wf(),
    {
        4 <= self.hdr_len && self.hdr_len <= 4096 && self.off_msglen <= self.hdr_len - 2
            && self.off_version < self.hdr_len && self.off_type < self.hdr_len && self.off_index
            <= self.hdr_len - 2 && self.off_flags <= self.hdr_len - 4 && self.off_addrs
            <= self.hdr_len - 4 && self.off_seq <= self.hdr_len - 4 && self.off_errno
            <= self.hdr_len - 4 && (match self.off_hdrlen {
            Some(o) => o <= self.hdr_len - 2,
            None => true,
        }) && self.af_inet6 != 0 && self.af_inet6 != AF_INET && self.af_inet6 != AF_LINK
            && (self.parse_word == 1 || self.parse_word == 2 || self.parse_word == 4
            || self.parse_word == 8 || self.parse_word == 16) && (self.encode_word == 1
            || self.encode_word == 2 || self.encode_word == 4 || self.encode_word == 8
            || self.encode_word == 16) && 8 <= self.sdl_len && self.sdl_len <= 255
    }
}

/// The sockaddr rounding rule: a zero length takes one word, any other
/// length is rounded up to the next word boundary (`1 + ((len-1) | (word-1))`).
/// With word 1 this is the exact length for nonzero lengths.
pub open spec fn spec_sa_size(word: usize, len: usize) -> usize {
    if len == 0 {
        word
    } else {
        (1 + (((len - 1) as usize) | ((word - 1) as usize))) as usize
    }
}

/// Rounds one sockaddr length to the platform's word rule.
pub fn sa_size(word: usize, len: usize) -> (r: usize)
    requires
        word == 1 || word == 2 || word == 4 || word == 8 || word == 16,
        len <= 4096,
    ensures
        r == spec_sa_size(word, len),
        len <= r <= len + word,
        r >= 1,
{
    if len == 0 {
        word
    } else {
        let l = len - 1;
        let w = word - 1;
        proof {
            assert(l <= (l | w) < 4096 + 16 && (l | w) <= l + w) by (bit_vector)
                requires
                    l < 4096 && w <= 15,
            ;
        }
        1 + (l | w)
    }
}

/// The byte at `off`, or zero past the end: the kernel zero-pads a sockaddr
/// slot to its rounded size, so a read past a truncated sockaddr but within
/// the slot sees zero.
pub open spec fn byte_or_zero(b: Seq<u8>, off: int) -> u8 {
    if 0 <= off < b.len() {
        b[off]
    } else {
        0
    }
}

fn read_byte_or_zero(b: &[u8], off: usize) -> (r: u8)
    ensures
        r == byte_or_zero(b@, off as int),
{
    if off < b.len() {
        b[off]
    } else {
        0
    }
}

/// Little-endian 16-bit field at `off`.
pub open spec fn le16_at(b: Seq<u8>, off: int) -> u16 {
    (byte_or_zero(b, off) as u16) | ((byte_or_zero(b, off + 1) as u16) << 8)
}

fn read_le16(b: &[u8], off: usize) -> (r: u16)
    requires
        off + 2 <= b@.len(),
    ensures
        r == le16_at(b@, off as int),
{
    (b[off] as u16) | ((b[off + 1] as u16) << 8)
}

/// Little-endian 32-bit field at `off`.
pub open spec fn le32_at(b: Seq<u8>, off: int) -> u32 {
    (byte_or_zero(b, off) as u32) | ((byte_or_zero(b, off + 1) as u32) << 8) | ((byte_or_zero(
        b,
        off + 2,
    ) as u32) << 16) | ((byte_or_zero(b, off + 3) as u32) << 24)
}

fn read_le32(b: &[u8], off: usize) -> (r: u32)
    requires
        off + 4 <= b@.len(),
    ensures
        r == le32_at(b@, off as int),
{
    (b[off] as u32) | ((b[off + 1] as u32) << 8) | ((b[off + 2] as u32) << 16) | ((b[off
        + 3] as u32) << 24)
}

/// Big-endian 32-bit value at `off`, zero-filled past the end.
pub open spec fn be32_zfill(b: Seq<u8>, off: int) -> u32 {
    ((byte_or_zero(b, off) as u32) << 24) | ((byte_or_zero(b, off + 1) as u32) << 16) | ((
    byte_or_zero(b, off + 2) as u32) << 8) | (byte_or_zero(b, off + 3) as u32)
}

fn read_be32_zfill(b: &[u8], off: usize) -> (r: u32)
    ensures
        r == be32_zfill(b@, off as int),
{
    ((read_byte_or_zero(b, off) as u32) << 24) | ((read_byte_or_zero_at(b, off, 1) as u32) << 16)
        | ((read_byte_or_zero_at(b, off, 2) as u32) << 8) | (read_byte_or_zero_at(b, off, 3) as u32)
}

/// The byte at `off + k`, or zero past the end (also when `off + k`
/// overflows the machine word, which is past the end of any real buffer).
fn read_byte_or_zero_at(b: &[u8], off: usize, k: usize) -> (r: u8)
    ensures
        r == byte_or_zero(b@, off + k),
{
    let n = b.len();
    if off < n && k < n - off {
        b[off + k]
    } else {
        0
    }
}

/// Big-endian 128-bit value at `off`, zero-filled past the end.
pub open spec fn be128_zfill(b: Seq<u8>, off: int) -> u128 {
    ((byte_or_zero(b, off) as u128) << 120) | ((byte_or_zero(b, off + 1) as u128) << 112) | ((
    byte_or_zero(b, off + 2) as u128) << 104) | ((byte_or_zero(b, off + 3) as u128) << 96) | ((
    byte_or_zero(b, off + 4) as u128) << 88) | ((byte_or_zero(b, off + 5) as u128) << 80) | ((
    byte_or_zero(b, off + 6) as u128) << 72) | ((byte_or_zero(b, off + 7) as u128) << 64) | ((
    byte_or_zero(b, off + 8) as u128) << 56) | ((byte_or_zero(b, off + 9) as u128) << 48) | ((
    byte_or_zero(b, off + 10) as u128) << 40) | ((byte_or_zero(b, off + 11) as u128) << 32) | ((
    byte_or_zero(b, off + 12) as u128) << 24) | ((byte_or_zero(b, off + 13) as u128) << 16) | ((
    byte_or_zero(b, off + 14) as u128) << 8) | (byte_or_zero(b, off + 15) as u128)
}

fn read_be128_zfill(b: &[u8], off: usize) -> (r: u128)
    ensures
        r == be128_zfill(b@, off as int),
{
    ((read_byte_or_zero_at(b, off, 0) as u128) << 120) | ((read_byte_or_zero_at(
        b,
        off,
        1,
    ) as u128) << 112) | ((read_byte_or_zero_at(b, off, 2) as u128) << 104) | ((
    read_byte_or_zero_at(b, off, 3) as u128) << 96) | ((read_byte_or_zero_at(b, off, 4) as u128)
        << 88) | ((read_byte_or_zero_at(b, off, 5) as u128) << 80) | ((read_byte_or_zero_at(
        b,
        off,
        6,
    ) as u128) << 72) | ((read_byte_or_zero_at(b, off, 7) as u128) << 64) | ((read_byte_or_zero_at(
        b,
        off,
        8,
    ) as u128) << 56) | ((read_byte_or_zero_at(b, off, 9) as u128) << 48) | ((read_byte_or_zero_at(
        b,
        off,
        10,
    ) as u128) << 40) | ((read_byte_or_zero_at(b, off, 11) as u128) << 32) | ((
    read_byte_or_zero_at(b, off, 12) as u128) << 24) | ((read_byte_or_zero_at(b, off, 13) as u128)
        << 16) | ((read_byte_or_zero_at(b, off, 14) as u128) << 8) | (read_byte_or_zero_at(
        b,
        off,
        15,
    ) as u128)
}

/// The number of leading one bits of a 32-bit mask at or above bit `31 - k`,
/// counting down from bit `31 - k`.
pub open spec fn spec_lead1_u32(x: u32, k: u8) -> u8
    decreases 32 - k,
{
    if k >= 32 {
        32
    } else if bit_v4(x, (31 - k) as u32) {
        spec_lead1_u32(x, (k + 1) as u8)
    } else {
        k
    }
}

/// The number of leading one bits of a 32-bit mask: the decoded prefix
/// length.
pub fn leading_ones_u32(x: u32) -> (r: u8)
    ensures
        r == spec_lead1_u32(x, 0),
        r <= 32,
{
    let mut k: u8 = 0;
    while k < 32 && (x >> ((31 - k) as u32)) & 1 == 1
        invariant
            k <= 32,
            spec_lead1_u32(x, 0) == spec_lead1_u32(x, k),
        decreases 32 - k,
    {
        k = k + 1;
    }
    k
}

/// The number of leading one bits of a 128-bit mask at or above bit
/// `127 - k`.
pub open spec fn spec_lead1_u128(x: u128, k: u8) -> u8
    decreases 128 - k,
{
    if k >= 128 {
        128
    } else if bit_v6(x, (127 - k) as u128) {
        spec_lead1_u128(x, (k + 1) as u8)
    } else {
        k
    }
}

/// The number of leading one bits of a 128-bit mask.
pub fn leading_ones_u128(x: u128) -> (r: u8)
    ensures
        r == spec_lead1_u128(x, 0),
        r <= 128,
{
    let mut k: u8 = 0;
    while k < 128 && (x >> ((127 - k) as u128)) & 1 == 1
        invariant
            k <= 128,
            spec_lead1_u128(x, 0) == spec_lead1_u128(x, k),
        decreases 128 - k,
    {
        k = k + 1;
    }
    k
}

/// Whether a decoded IPv6 gateway carries a kernel-embedded scope id in its
/// second segment: unicast link-local (first segment `0xfe80`), or multicast
/// (first byte `0xff`) with interface- or link-local scope (low four bits of
/// the second byte equal to 1 or 2).
pub open spec fn spec_v6_scope_embedded(ip: u128) -> bool {
    ((ip >> 112) & 0xffff) == 0xfe80 || (((ip >> 120) & 0xff) == 0xff && (((ip >> 112) & 0x0f) == 1
        || ((ip >> 112) & 0x0f) == 2))
}

/// The literal gateway address: the scope-carrying second segment (bytes two
/// and three) zeroed exactly when the scope id is embedded, the address
/// unchanged otherwise.
pub open spec fn spec_strip_v6_scope(ip: u128) -> u128 {
    if spec_v6_scope_embedded(ip) {
        ip & !(0xffffu128 << 96)
    } else {
        ip
    }
}

/// Strips the kernel-embedded scope id from an IPv6 gateway.
pub fn strip_v6_scope(ip: u128) -> (r: u128)
    ensures
        r == spec_strip_v6_scope(ip),
{
    let seg0 = (ip >> 112) & 0xffff;
    let b0 = (ip >> 120) & 0xff;
    let scope = (ip >> 112) & 0x0f;
    if seg0 == 0xfe80 || (b0 == 0xff && (scope == 1 || scope == 2)) {
        ip & !(0xffffu128 << 96)
    } else {
        ip
    }
}

/// The address a sockaddr slot holds, read at `start` within the slot bytes:
/// family 2 is a 4-byte address at offset 4, the layout's IPv6 family a
/// 16-byte address at offset 8; the link-layer family and everything else
/// hold no IP address. The sockaddr must announce at least the full fixed
/// size of its family's form, as the kernel writes it.
pub open spec fn spec_sa_ip(b: Seq<u8>, start: int, lay: RtLayout) -> Option<IpAddress> {
    let sa_len = byte_or_zero(b, start);
    let family = byte_or_zero(b, start + 1);
    if family == AF_INET {
        if sa_len >= 16 {
            Some(IpAddress::V4(be32_zfill(b, start + 4)))
        } else {
            None
        }
    } else if family == lay.af_inet6 {
        if sa_len >= 28 {
            Some(IpAddress::V6(be128_zfill(b, start + 8)))
        } else {
            None
        }
    } else {
        None
    }
}

/// Reads the address of the sockaddr at `start`.
pub fn sa_ip(b: &[u8], start: usize, lay: &RtLayout) -> (r: Option<IpAddress>)
    requires
        lay.wf(),
        b@.len() <= 65536,
    ensures
        r == spec_sa_ip(b@, start as int, *lay),
{
    if start >= b.len() {
        return None;
    }
    let sa_len = read_byte_or_zero(b, start);
    let family = read_byte_or_zero_at(b, start, 1);
    if family == AF_INET {
        if sa_len >= 16 {
            Some(IpAddress::V4(read_be32_zfill(b, start + 4)))
        } else {
            None
        }
    } else if family == lay.af_inet6 {
        if sa_len >= 28 {
            Some(IpAddress::V6(read_be128_zfill(b, start + 8)))
        } else {
            None
        }
    } else {
        None
    }
}

/// One step of the bitmask-selected slot walk: whether bit `idx` selects a
/// slot, where that slot starts, and the cursor after it. A selected slot with
/// fewer than the fixed sockaddr size of bytes left is skipped without moving
/// the cursor, as the reference tools do; one whose announced length runs past
/// the buffer makes the row bad. The cursor never moves past the buffer.
pub open spec fn spec_slot_step(msg: Seq<u8>, addrs: u32, idx: u32, cur: int, word: usize) -> (
    Option<int>,
    int,
    bool,
) {
    if addrs & (1u32 << idx) == 0 {
        (None, cur, false)
    } else if msg.len() - cur < 16 {
        (None, cur, false)
    } else {
        let sa_len = byte_or_zero(msg, cur) as int;
        if cur + sa_len > msg.len() {
            (None, cur, true)
        } else {
            let next = cur + spec_sa_size(word, byte_or_zero(msg, cur) as usize);
            (Some(cur), if next > msg.len() { msg.len() as int } else { next }, false)
        }
    }
}

fn slot_step(msg: &[u8], addrs: u32, idx: u32, cur: usize, word: usize) -> (r: (
    Option<usize>,
    usize,
    bool,
))
    requires
        idx <= 2,
        word == 1 || word == 2 || word == 4 || word == 8 || word == 16,
        cur <= msg@.len(),
        msg@.len() <= 65536,
    ensures
        ({
            let (s, c, bad) = spec_slot_step(msg@, addrs, idx, cur as int, word);
            &&& match r.0 {
                Some(u) => s == Some(u as int),
                None => s is None,
            }
            &&& r.1 == c
            &&& r.2 == bad
            &&& r.1 <= msg@.len()
        }),
{
    if addrs & (1u32 << idx) == 0 {
        (None, cur, false)
    } else if msg.len() - cur < 16 {
        (None, cur, false)
    } else {
        let sa_len = read_byte_or_zero(msg, cur) as usize;
        if cur + sa_len > msg.len() {
            (None, cur, true)
        } else {
            let next = cur + sa_size(word, sa_len);
            (Some(cur), if next > msg.len() { msg.len() } else { next }, false)
        }
    }
}

/// One row of the routing-socket protocol as a `Route`: the destination slot
/// is required (a row without one is not a route); the gateway, when its bit
/// is set, must have its slot present, is decoded by family, and has the
/// scope id stripped when IPv6; the prefix defaults to the destination
/// family's full width and is narrowed by the netmask slot (an absent or
/// zero-length netmask slot under a set bit encodes prefix zero, any other
/// the count of the mask's leading one bits); the interface index comes from
/// the header. The interface name is back-filled by the caller.
pub open spec fn spec_message_to_route(msg: Seq<u8>, addrs: u32, index: u16, lay: RtLayout) -> Option<
    Route,
> {
    if addrs & RTA_DST == 0 {
        None
    } else {
        let (s0, c0, bad0) = spec_slot_step(msg, addrs, 0, 0, lay.parse_word);
        let (s1, c1, bad1) = spec_slot_step(msg, addrs, 1, c0, lay.parse_word);
        let (s2, c2, bad2) = spec_slot_step(msg, addrs, 2, c1, lay.parse_word);
        if bad0 || bad1 || bad2 {
            None
        } else if s0 is None {
            None
        } else {
            match spec_sa_ip(msg, s0->0, lay) {
                None => None,
                Some(destination) => {
                    if addrs & RTA_GATEWAY != 0 && s1 is None {
                        None
                    } else {
                        let gateway0 = if addrs & RTA_GATEWAY != 0 {
                            spec_sa_ip(msg, s1->0, lay)
                        } else {
                            None
                        };
                        let gateway = match gateway0 {
                            Some(IpAddress::V6(g)) => Some(IpAddress::V6(spec_strip_v6_scope(g))),
                            other => other,
                        };
                        let fullw: u8 = if destination is V4 {
                            32
                        } else {
                            128
                        };
                        let prefix = if addrs & RTA_NETMASK != 0 {
                            match s2 {
                                None => 0u8,
                                Some(nm) => {
                                    if byte_or_zero(msg, nm) == 0 {
                                        0u8
                                    } else if destination is V4 {
                                        spec_lead1_u32(be32_zfill(msg, nm + 4), 0)
                                    } else {
                                        spec_lead1_u128(be128_zfill(msg, nm + 8), 0)
                                    }
                                },
                            }
                        } else {
                            fullw
                        };
                        Some(
                            Route {
                                destination,
                                prefix,
                                gateway,
                                if_name: None,
                                if_index: Some(index as u32),
                                table: 0,
                                source: None,
                                source_prefix: 0,
                                pref_source: None,
                                metric: None,
                                luid: None,
                            },
                        )
                    }
                },
            }
        }
    }
}

/// Decodes one row's sockaddr area into a `Route`.
pub fn message_to_route(msg: &[u8], addrs: u32, index: u16, lay: &RtLayout) -> (r: Option<Route>)
    requires
        lay.wf(),
        msg@.len() <= 65536,
    ensures
        r == spec_message_to_route(msg@, addrs, index, *lay),
{
    if addrs & RTA_DST == 0 {
        return None;
    }
    let (s0, c0, bad0) = slot_step(msg, addrs, 0, 0, lay.parse_word);
    let (s1, c1, bad1) = slot_step(msg, addrs, 1, c0, lay.parse_word);
    let (s2, c2, bad2) = slot_step(msg, addrs, 2, c1, lay.parse_word);
    if bad0 || bad1 || bad2 {
        return None;
    }
    let d0 = match s0 {
        None => {
            return None;
        },
        Some(d0) => d0,
    };
    let destination = match sa_ip(msg, d0, lay) {
        None => {
            return None;
        },
        Some(d) => d,
    };
    let mut gateway: Option<IpAddress> = None;
    if addrs & RTA_GATEWAY != 0 {
        match s1 {
            None => {
                return None;
            },
            Some(g) => {
                gateway = sa_ip(msg, g, lay);
                if let Some(IpAddress::V6(gv6)) = gateway {
                    gateway = Some(IpAddress::V6(strip_v6_scope(gv6)));
                }
            },
        }
    }
    let fullw: u8 = if destination.is_v4() {
        32
    } else {
        128
    };
    let prefix: u8 = if addrs & RTA_NETMASK != 0 {
        match s2 {
            None => 0,
            Some(nm) => {
                if read_byte_or_zero(msg, nm) == 0 {
                    0
                } else if destination.is_v4() {
                    leading_ones_u32(read_be32_zfill(msg, nm + 4))
                } else {
                    leading_ones_u128(read_be128_zfill(msg, nm + 8))
                }
            },
        }
    } else {
        fullw
    };
    Some(
        Route {
            destination,
            prefix,
            gateway,
            if_name: None,
            if_index: Some(index as u32),
            table: 0,
            source: None,
            source_prefix: 0,
            pref_source: None,
            metric: None,
            luid: None,
        },
    )
}

/// The rows a byte batch decodes to from `from` on, each with its message
/// type, in arrival order, or the batch's failure. A message length of zero
/// ends the walk; one that is shorter than the header or runs past the buffer
/// is a decode failure. Rows with the wrong protocol version, rows missing a
/// required flag or carrying an excluded one, and rows that decode to no
/// route are skipped. A row with a nonzero error number fails the call with
/// that code, except during a dump, where such rows are excluded.
pub open spec fn spec_rt_batch(
    bytes: Seq<u8>,
    from: int,
    lay: RtLayout,
    during_dump: bool,
) -> Result<Seq<(u8, Route)>, RouteError>
    decreases bytes.len() - from,
{
    if from < 0 || from + lay.hdr_len > bytes.len() {
        Ok(seq![])
    } else {
        let msglen = le16_at(bytes, from + lay.off_msglen) as int;
        if msglen == 0 {
            Ok(seq![])
        } else if msglen < lay.hdr_len || from + msglen > bytes.len() {
            Err(RouteError::Decode)
        } else {
            let version = byte_or_zero(bytes, from + lay.off_version);
            let rtm_type = byte_or_zero(bytes, from + lay.off_type);
            let index = le16_at(bytes, from + lay.off_index);
            let flags = le32_at(bytes, from + lay.off_flags);
            let addrs = le32_at(bytes, from + lay.off_addrs);
            let errno = le32_at(bytes, from + lay.off_errno);
            let rest = spec_rt_batch(bytes, from + msglen, lay, during_dump);
            if version != lay.version {
                rest
            } else if lay.required_flags != 0 && flags & lay.required_flags == 0 {
                rest
            } else if flags & lay.excluded_flags_pre != 0 {
                rest
            } else if errno != 0 {
                if during_dump {
                    rest
                } else {
                    Err(RouteError::Os(errno as i32))
                }
            } else if flags & lay.excluded_flags_post != 0 {
                rest
            } else {
                match spec_message_to_route(
                    bytes.subrange(from + lay.hdr_len, from + msglen),
                    addrs,
                    index,
                    lay,
                ) {
                    None => rest,
                    Some(rt) => match rest {
                        Err(e) => Err(e),
                        Ok(rs) => Ok(seq![(rtm_type, rt)] + rs),
                    },
                }
            }
        }
    }
}

/// Decodes a routing-socket byte batch into its rows, each with its message
/// type, in arrival order.
pub fn decode_rt_rows(buf: &[u8], lay: &RtLayout, during_dump: bool) -> (r: Result<
    Vec<(u8, Route)>,
    RouteError,
>)
    requires
        lay.wf(),
        buf@.len() < 0x10000000,
    ensures
        match r {
            Ok(rows) => spec_rt_batch(buf@, 0, *lay, during_dump) == Ok::<_, RouteError>(rows@),
            Err(e) => spec_rt_batch(buf@, 0, *lay, during_dump) == Err::<Seq<(u8, Route)>, _>(e),
        },
{
    let mut rows: Vec<(u8, Route)> = Vec::new();
    let mut offset: usize = 0;
    loop
        invariant
            lay.wf(),
            buf@.len() < 0x10000000,
            offset <= buf@.len(),
            spec_rt_batch(buf@, 0, *lay, during_dump) == (match spec_rt_batch(
                buf@,
                offset as int,
                *lay,
                during_dump,
            ) {
                Ok(rest) => Ok::<_, RouteError>(rows@ + rest),
                Err(e) => Err::<Seq<(u8, Route)>, _>(e),
            }),
        decreases buf@.len() - offset,
    {
        if offset + lay.hdr_len > buf.len() {
            proof {
                assert(rows@ + Seq::<(u8, Route)>::empty() =~= rows@);
            }
            return Ok(rows);
        }
        let msglen = read_le16(buf, offset + lay.off_msglen) as usize;
        if msglen == 0 {
            proof {
                assert(rows@ + Seq::<(u8, Route)>::empty() =~= rows@);
            }
            return Ok(rows);
        }
        if msglen < lay.hdr_len || offset + msglen > buf.len() {
            return Err(RouteError::Decode);
        }
        let version = read_byte_or_zero_at(buf, offset, lay.off_version);
        let rtm_type = read_byte_or_zero_at(buf, offset, lay.off_type);
        let index = read_le16(buf, offset + lay.off_index);
        let flags = read_le32(buf, offset + lay.off_flags);
        let addrs = read_le32(buf, offset + lay.off_addrs);
        let errno = read_le32(buf, offset + lay.off_errno);
        let keep = version == lay.version && !(lay.required_flags != 0 && flags
            & lay.required_flags == 0) && flags & lay.excluded_flags_pre == 0;
        if keep {
            if errno != 0 {
                if !during_dump {
                    return Err(RouteError::Os(#[verifier::truncate] (errno as i32)));
                }
            } else if flags & lay.excluded_flags_post != 0 {
            } else {
                let msg = slice_subrange(buf, offset + lay.hdr_len, offset + msglen);
                proof {
                    assert(msg@ =~= buf@.subrange(
                        offset + lay.hdr_len as int,
                        offset + msglen as int,
                    ));
                }
                match message_to_route(msg, addrs, index, lay) {
                    None => {},
                    Some(rt) => {
                        let ghost before = rows@;
                        rows.push((rtm_type, rt));
                        proof {
                            let rest2 = spec_rt_batch(
                                buf@,
                                offset + msglen as int,
                                *lay,
                                during_dump,
                            );
                            if rest2 is Ok {
                                assert(before + (seq![(rtm_type, rt)] + rest2->Ok_0) =~= rows@
                                    + rest2->Ok_0);
                            }
                        }
                    },
                }
            }
        }
        offset += msglen;
    }
}

/// The routes of the dump rows: those whose message type answers a table
/// query.
pub open spec fn spec_dump_routes(rows: Seq<(u8, Route)>) -> Seq<Route>
    decreases rows.len(),
{
    if rows.len() == 0 {
        seq![]
    } else {
        spec_dump_routes(rows.drop_last()) + (if rows.last().0 == RTM_GET {
            seq![rows.last().1]
        } else {
            seq![]
        })
    }
}

/// The change events of the rows: add, delete and change message types map
/// to their event kinds, everything else is dropped.
pub open spec fn spec_change_events(rows: Seq<(u8, Route)>) -> Seq<RouteChange>
    decreases rows.len(),
{
    if rows.len() == 0 {
        seq![]
    } else {
        spec_change_events(rows.drop_last()) + (if rows.last().0 == RTM_ADD {
            seq![RouteChange::Add(rows.last().1)]
        } else if rows.last().0 == RTM_DELETE {
            seq![RouteChange::Delete(rows.last().1)]
        } else if rows.last().0 == RTM_CHANGE {
            seq![RouteChange::Change(rows.last().1)]
        } else {
            seq![]
        })
    }
}

/// Decodes a table dump: the routes of the rows that answer the query, with
/// rows carrying an error number excluded rather than failing the dump.
pub fn decode_rt_dump(buf: &[u8], lay: &RtLayout) -> (r: Result<Vec<Route>, RouteError>)
    requires
        lay.wf(),
        buf@.len() < 0x10000000,
    ensures
        match r {
            Ok(routes) => spec_rt_batch(buf@, 0, *lay, true) is Ok && routes@ == spec_dump_routes(
                spec_rt_batch(buf@, 0, *lay, true)->Ok_0,
            ),
            Err(e) => spec_rt_batch(buf@, 0, *lay, true) == Err::<Seq<(u8, Route)>, _>(e),
        },
{
    let rows = match decode_rt_rows(buf, lay, true) {
        Err(e) => {
            return Err(e);
        },
        Ok(rows) => rows,
    };
    let mut out: Vec<Route> = Vec::new();
    let mut k: usize = 0;
    while k < rows.len()
        invariant
            k <= rows@.len(),
            out@ =~= spec_dump_routes(rows@.subrange(0, k as int)),
        decreases rows@.len() - k,
    {
        proof {
            assert(rows@.subrange(0, k + 1 as int).drop_last() =~= rows@.subrange(0, k as int));
            assert(rows@.subrange(0, k + 1 as int).last() == rows@[k as int]);
        }
        if rows[k].0 == RTM_GET {
            out.push(rows[k].1.clone());
        }
        k += 1;
    }
    proof {
        assert(rows@.subrange(0, rows@.len() as int) =~= rows@);
    }
    Ok(out)
}

/// Decodes a listener's read batch, appending the change events to `out` in
/// arrival order.
pub fn decode_rt_changes(buf: &[u8], lay: &RtLayout, out: &mut Vec<RouteChange>) -> (r: Result<
    (),
    RouteError,
>)
    requires
        lay.wf(),
        buf@.len() < 0x10000000,
    ensures
        match r {
            Ok(()) => spec_rt_batch(buf@, 0, *lay, false) is Ok && final(out)@ == old(out)@
                + spec_change_events(spec_rt_batch(buf@, 0, *lay, false)->Ok_0),
            Err(e) => spec_rt_batch(buf@, 0, *lay, false) == Err::<Seq<(u8, Route)>, _>(e)
                && final(out)@ == old(out)@,
        },
{
    let rows = match decode_rt_rows(buf, lay, false) {
        Err(e) => {
            return Err(e);
        },
        Ok(rows) => rows,
    };
    let mut k: usize = 0;
    while k < rows.len()
        invariant
            k <= rows@.len(),
            out@ =~= old(out)@ + spec_change_events(rows@.subrange(0, k as int)),
        decreases rows@.len() - k,
    {
        proof {
            assert(rows@.subrange(0, k + 1 as int).drop_last() =~= rows@.subrange(0, k as int));
            assert(rows@.subrange(0, k + 1 as int).last() == rows@[k as int]);
        }
        let t = rows[k].0;
        if t == RTM_ADD {
            out.push(RouteChange::Add(rows[k].1.clone()));
        } else if t == RTM_DELETE {
            out.push(RouteChange::Delete(rows[k].1.clone()));
        } else if t == RTM_CHANGE {
            out.push(RouteChange::Change(rows[k].1.clone()));
        }
        k += 1;
    }
    proof {
        assert(rows@.subrange(0, rows@.len() as int) =~= rows@);
    }
    Ok(())
}

/// Decodes the kernel's reply to an add or delete request: the rows carry no
/// information the caller needs, but a malformed reply or an embedded error
/// number fails the call with its code.
pub fn decode_rt_reply(buf: &[u8], lay: &RtLayout) -> (r: Result<(), RouteError>)
    requires
        lay.wf(),
        buf@.len() < 0x10000000,
    ensures
        r is Ok <==> spec_rt_batch(buf@, 0, *lay, false) is Ok,
        r is Err ==> spec_rt_batch(buf@, 0, *lay, false) == Err::<Seq<(u8, Route)>, _>(r->Err_0),
{
    match decode_rt_rows(buf, lay, false) {
        Err(e) => Err(e),
        Ok(_) => Ok(()),
    }
}

/// `n` zero bytes.
pub open spec fn zeros(n: nat) -> Seq<u8> {
    Seq::new(n, |i: int| 0u8)
}

/// `s` zero-padded to length `n` (unchanged when already that long).
pub open spec fn pad_zeros(s: Seq<u8>, n: int) -> Seq<u8> {
    if s.len() >= n {
        s
    } else {
        s + zeros((n - s.len()) as nat)
    }
}

/// The 16 bytes of an IPv4 sockaddr: length, family, two port bytes, the
/// four address octets most significant first, and zero padding.
pub open spec fn spec_sa4_bytes(ip: u32) -> Seq<u8> {
    seq![
        16u8,
        AF_INET,
        0u8,
        0u8,
        (ip >> 24) as u8,
        (ip >> 16) as u8,
        (ip >> 8) as u8,
        ip as u8,
        0u8,
        0u8,
        0u8,
        0u8,
        0u8,
        0u8,
        0u8,
        0u8,
    ]
}

/// The 28 bytes of an IPv6 sockaddr: length, the platform's IPv6 family,
/// zero port and flow info, the sixteen address octets most significant
/// first, and a zero scope id.
pub open spec fn spec_sa6_bytes(ip: u128, af6: u8) -> Seq<u8> {
    seq![
        28u8,
        af6,
        0u8,
        0u8,
        0u8,
        0u8,
        0u8,
        0u8,
        (ip >> 120) as u8,
        (ip >> 112) as u8,
        (ip >> 104) as u8,
        (ip >> 96) as u8,
        (ip >> 88) as u8,
        (ip >> 80) as u8,
        (ip >> 72) as u8,
        (ip >> 64) as u8,
        (ip >> 56) as u8,
        (ip >> 48) as u8,
        (ip >> 40) as u8,
        (ip >> 32) as u8,
        (ip >> 24) as u8,
        (ip >> 16) as u8,
        (ip >> 8) as u8,
        ip as u8,
        0u8,
        0u8,
        0u8,
        0u8,
    ]
}

/// The platform's link-layer sockaddr: length, the link family, the
/// interface index as a little-endian 16-bit field, and zeros.
pub open spec fn spec_sdl_bytes(index: u16, sdl_len: usize) -> Seq<u8> {
    seq![sdl_len as u8, AF_LINK, index as u8, (index >> 8) as u8] + zeros((sdl_len - 4) as nat)
}

/// An address slot as encoded: the family's sockaddr, padded to the
/// platform's rounding.
pub open spec fn spec_sa_addr_bytes(a: IpAddress, lay: RtLayout) -> Seq<u8> {
    match a {
        IpAddress::V4(x) => pad_zeros(spec_sa4_bytes(x), spec_sa_size(lay.encode_word, 16) as int),
        IpAddress::V6(x) => pad_zeros(
            spec_sa6_bytes(x, lay.af_inet6),
            spec_sa_size(lay.encode_word, 28) as int,
        ),
    }
}

/// The link-layer slot as encoded, padded to the platform's rounding.
pub open spec fn spec_sdl_padded(index: u16, lay: RtLayout) -> Seq<u8> {
    pad_zeros(spec_sdl_bytes(index, lay.sdl_len), spec_sa_size(lay.encode_word, lay.sdl_len) as int)
}

fn pad_to(out: &mut Vec<u8>, end: usize)
    requires
        old(out)@.len() <= end,
        end <= 70000,
    ensures
        final(out)@ == old(out)@ + zeros((end - old(out)@.len()) as nat),
        final(out)@.len() == end,
{
    while out.len() < end
        invariant
            old(out)@.len() <= out@.len() <= end,
            out@ == old(out)@ + zeros((out@.len() - old(out)@.len()) as nat),
        decreases end - out@.len(),
    {
        let ghost before = out@;
        out.push(0u8);
        proof {
            assert(out@ =~= old(out)@ + zeros((out@.len() - old(out)@.len()) as nat));
        }
    }
    proof {
        assert(out@ =~= old(out)@ + zeros((out@.len() - old(out)@.len()) as nat));
    }
}

/// Appends one address slot.
fn push_sa_addr(out: &mut Vec<u8>, a: &IpAddress, lay: &RtLayout)
    requires
        lay.wf(),
        old(out)@.len() <= 60000,
    ensures
        final(out)@ == old(out)@ + spec_sa_addr_bytes(*a, *lay),
        final(out)@.len() <= old(out)@.len() + 44,
{
    match a {
        IpAddress::V4(x) => {
            let ip = *x;
            out.push(16u8);
            out.push(AF_INET);
            out.push(0u8);
            out.push(0u8);
            out.push(#[verifier::truncate] ((ip >> 24) as u8));
            out.push(#[verifier::truncate] ((ip >> 16) as u8));
            out.push(#[verifier::truncate] ((ip >> 8) as u8));
            out.push(#[verifier::truncate] (ip as u8));
            out.push(0u8);
            out.push(0u8);
            out.push(0u8);
            out.push(0u8);
            out.push(0u8);
            out.push(0u8);
            out.push(0u8);
            out.push(0u8);
            proof {
                assert(out@ =~= old(out)@ + spec_sa4_bytes(ip));
            }
            let target = out.len() + sa_size(lay.encode_word, 16) - 16;
            pad_to(out, target);
            proof {
                assert(out@ =~= old(out)@ + spec_sa_addr_bytes(*a, *lay));
            }
        },
        IpAddress::V6(x) => {
            let ip = *x;
            out.push(28u8);
            out.push(lay.af_inet6);
            out.push(0u8);
            out.push(0u8);
            out.push(0u8);
            out.push(0u8);
            out.push(0u8);
            out.push(0u8);
            out.push(#[verifier::truncate] ((ip >> 120) as u8));
            out.push(#[verifier::truncate] ((ip >> 112) as u8));
            out.push(#[verifier::truncate] ((ip >> 104) as u8));
            out.push(#[verifier::truncate] ((ip >> 96) as u8));
            out.push(#[verifier::truncate] ((ip >> 88) as u8));
            out.push(#[verifier::truncate] ((ip >> 80) as u8));
            out.push(#[verifier::truncate] ((ip >> 72) as u8));
            out.push(#[verifier::truncate] ((ip >> 64) as u8));
            out.push(#[verifier::truncate] ((ip >> 56) as u8));
            out.push(#[verifier::truncate] ((ip >> 48) as u8));
            out.push(#[verifier::truncate] ((ip >> 40) as u8));
            out.push(#[verifier::truncate] ((ip >> 32) as u8));
            out.push(#[verifier::truncate] ((ip >> 24) as u8));
            out.push(#[verifier::truncate] ((ip >> 16) as u8));
            out.push(#[verifier::truncate] ((ip >> 8) as u8));
            out.push(#[verifier::truncate] (ip as u8));
            out.push(0u8);
            out.push(0u8);
            out.push(0u8);
            out.push(0u8);
            proof {
                assert(out@ =~= old(out)@ + spec_sa6_bytes(ip, lay.af_inet6));
            }
            let target = out.len() + sa_size(lay.encode_word, 28) - 28;
            pad_to(out, target);
            proof {
                assert(out@ =~= old(out)@ + spec_sa_addr_bytes(*a, *lay));
            }
        },
    }
}

/// Appends the link-layer slot for an interface index.
fn push_sdl(out: &mut Vec<u8>, index: u16, lay: &RtLayout)
    requires
        lay.wf(),
        old(out)@.len() <= 60000,
    ensures
        final(out)@ == old(out)@ + spec_sdl_padded(index, *lay),
        final(out)@.len() <= old(out)@.len() + lay.sdl_len + 16,
{
    out.push(#[verifier::truncate] (lay.sdl_len as u8));
    out.push(AF_LINK);
    out.push(#[verifier::truncate] (index as u8));
    out.push(#[verifier::truncate] ((index >> 8) as u8));
    let body_end = out.len() + lay.sdl_len - 4;
    pad_to(out, body_end);
    proof {
        assert(out@ =~= old(out)@ + spec_sdl_bytes(index, lay.sdl_len));
    }
    let target = out.len() + sa_size(lay.encode_word, lay.sdl_len) - lay.sdl_len;
    pad_to(out, target);
    proof {
        assert(out@ =~= old(out)@ + spec_sdl_padded(index, *lay));
    }
}

/// `s` with a little-endian 16-bit field written at `off`.
pub open spec fn write_le16(s: Seq<u8>, off: int, x: u16) -> Seq<u8> {
    s.update(off, x as u8).update(off + 1, (x >> 8) as u8)
}

/// `s` with a little-endian 32-bit field written at `off`.
pub open spec fn write_le32(s: Seq<u8>, off: int, x: u32) -> Seq<u8> {
    s.update(off, x as u8).update(off + 1, (x >> 8) as u8).update(off + 2, (x >> 16) as u8).update(
        off + 3,
        (x >> 24) as u8,
    )
}

fn set_le16(v: &mut Vec<u8>, off: usize, x: u16)
    requires
        off <= usize::MAX - 2,
        off + 2 <= old(v)@.len(),
    ensures
        final(v)@ == write_le16(old(v)@, off as int, x),
{
    v[off] = #[verifier::truncate] (x as u8);
    v[off + 1] = #[verifier::truncate] ((x >> 8) as u8);
}

fn set_le32(v: &mut Vec<u8>, off: usize, x: u32)
    requires
        off <= usize::MAX - 4,
        off + 4 <= old(v)@.len(),
    ensures
        final(v)@ == write_le32(old(v)@, off as int, x),
{
    v[off] = #[verifier::truncate] (x as u8);
    v[off + 1] = #[verifier::truncate] ((x >> 8) as u8);
    v[off + 2] = #[verifier::truncate] ((x >> 16) as u8);
    v[off + 3] = #[verifier::truncate] ((x >> 24) as u8);
}

/// The fixed header of a request: zeros with the message length, version,
/// type, slot bitmask, a sequence number of one and the request flags
/// written at the layout's offsets, and the header length itself on the
/// platform variant that carries one.
pub open spec fn spec_rt_header(lay: RtLayout, msglen: u16, rtm_type: u8, addrs: u32) -> Seq<u8> {
    let h = zeros(lay.hdr_len as nat);
    let h = write_le16(h, lay.off_msglen as int, msglen);
    let h = h.update(lay.off_version as int, lay.version);
    let h = h.update(lay.off_type as int, rtm_type);
    let h = write_le32(h, lay.off_addrs as int, addrs);
    let h = write_le32(h, lay.off_seq as int, 1);
    let h = write_le32(h, lay.off_flags as int, RT_REQUEST_FLAGS);
    match lay.off_hdrlen {
        Some(o) => write_le16(h, o as int, lay.hdr_len as u16),
        None => h,
    }
}

/// The slot bitmask of a request: destination and netmask always, the
/// gateway slot for every add and for any request that carries a gateway.
pub open spec fn spec_rt_addrs_mask(route: Route, rtm_type: u8) -> u32 {
    if rtm_type == RTM_ADD || route.gateway is Some {
        RTA_DST | RTA_NETMASK | RTA_GATEWAY
    } else {
        RTA_DST | RTA_NETMASK
    }
}

/// The sockaddr area of a request, in the exact slot order the kernel
/// expects: the destination; the gateway when present; for an add without a
/// gateway, the interface's link-layer slot in the gateway position; the
/// netmask (the prefix as a full mask of the destination's family); and for
/// every request but a gatewayless add, the interface's link-layer slot
/// after the netmask.
pub open spec fn spec_rt_attrs(route: Route, ifc: IfaceResolution, rtm_type: u8, lay: RtLayout) -> Seq<
    u8,
> {
    let idx = route.spec_effective_index(ifc);
    let mask_addr = match route.destination {
        IpAddress::V4(_) => IpAddress::V4(crate::addr::mask_v4(route.prefix)),
        IpAddress::V6(_) => IpAddress::V6(crate::addr::mask_v6(route.prefix)),
    };
    let a = spec_sa_addr_bytes(route.destination, lay);
    let a = if route.gateway is Some {
        a + spec_sa_addr_bytes(route.gateway->0, lay)
    } else {
        a
    };
    let a = if rtm_type == RTM_ADD && route.gateway is None && idx is Some {
        a + spec_sdl_padded((idx->0) as u16, lay)
    } else {
        a
    };
    let a = a + spec_sa_addr_bytes(mask_addr, lay);
    if (rtm_type != RTM_ADD || route.gateway is None) && idx is Some {
        a + spec_sdl_padded((idx->0) as u16, lay)
    } else {
        a
    }
}

/// A whole add or delete request: the header, with the message length
/// covering header and slots, followed by the sockaddr area.
pub open spec fn spec_rt_request(
    route: Route,
    ifc: IfaceResolution,
    rtm_type: u8,
    lay: RtLayout,
) -> Seq<u8> {
    let attrs = spec_rt_attrs(route, ifc, rtm_type, lay);
    spec_rt_header(
        lay,
        (lay.hdr_len + attrs.len()) as u16,
        rtm_type,
        spec_rt_addrs_mask(route, rtm_type),
    ) + attrs
}

/// Encodes an add or delete request for `route`: validation first, then the
/// header and the slots in the kernel's order. Fails exactly when validation
/// fails, with its error.
pub fn encode_rt_request(route: &Route, ifc: &IfaceResolution, rtm_type: u8, lay: &RtLayout) -> (r:
    Result<Vec<u8>, RouteError>)
    requires
        lay.wf(),
    ensures
        r is Ok <==> route.spec_check(*ifc) is Ok,
        route.spec_check(*ifc) is Err ==> r == Err::<Vec<u8>, _>(route.spec_check(*ifc)->Err_0),
        r is Ok ==> r->Ok_0@ == spec_rt_request(*route, *ifc, rtm_type, *lay),
{
    match route.check(ifc) {
        Err(e) => {
            return Err(e);
        },
        Ok(()) => {},
    }
    let idx = route.effective_index(ifc);
    let mask_addr = match route.destination {
        IpAddress::V4(_) => IpAddress::V4(crate::addr::compute_mask_v4(route.prefix)),
        IpAddress::V6(_) => IpAddress::V6(crate::addr::compute_mask_v6(route.prefix)),
    };
    let mut attrs: Vec<u8> = Vec::new();
    push_sa_addr(&mut attrs, &route.destination, lay);
    if let Some(gw) = route.gateway {
        push_sa_addr(&mut attrs, &gw, lay);
    }
    let is_add = rtm_type == RTM_ADD;
    if is_add && route.gateway.is_none() {
        if let Some(i) = idx {
            push_sdl(&mut attrs, #[verifier::truncate] (i as u16), lay);
        }
    }
    push_sa_addr(&mut attrs, &mask_addr, lay);
    if !is_add || route.gateway.is_none() {
        if let Some(i) = idx {
            push_sdl(&mut attrs, #[verifier::truncate] (i as u16), lay);
        }
    }
    proof {
        assert(attrs@ =~= spec_rt_attrs(*route, *ifc, rtm_type, *lay));
    }
    let addrs_mask: u32 = if rtm_type == RTM_ADD || route.gateway.is_some() {
        RTA_DST | RTA_NETMASK | RTA_GATEWAY
    } else {
        RTA_DST | RTA_NETMASK
    };
    let msglen_usize = lay.hdr_len + attrs.len();
    let msglen: u16 = #[verifier::truncate] (msglen_usize as u16);
    proof {
        assert(msglen == (lay.hdr_len + attrs@.len()) as u16);
    }
    let mut out: Vec<u8> = Vec::new();
    pad_to(&mut out, lay.hdr_len);
    proof {
        assert(out@ =~= zeros(lay.hdr_len as nat));
    }
    set_le16(&mut out, lay.off_msglen, msglen);
    out[lay.off_version] = lay.version;
    out[lay.off_type] = rtm_type;
    set_le32(&mut out, lay.off_addrs, addrs_mask);
    set_le32(&mut out, lay.off_seq, 1);
    set_le32(&mut out, lay.off_flags, RT_REQUEST_FLAGS);
    match lay.off_hdrlen {
        Some(o) => {
            set_le16(&mut out, o, #[verifier::truncate] (lay.hdr_len as u16));
        },
        None => {},
    }
    proof {
        assert(out@ == spec_rt_header(*lay, msglen, rtm_type, spec_rt_addrs_mask(*route, rtm_type)));
    }
    let mut attrs2 = attrs;
    out.append(&mut attrs2);
    Ok(out)
}

} // verus!
