//! The native-table transport's translation engine: the fixed-layout
//! forwarding-table row held as plain values, converted to and from the
//! model, and the UTF-16 name helpers of that platform's interface lookups.
//! The platform calls that fetch, insert, delete and watch rows live with the
//! I/O shell, which copies a row's fields into and out of this value.

use crate::addr::IpAddress;
use crate::route::{IfaceResolution, Route, RouteError};
use vstd::prelude::*;
use vstd::slice::slice_subrange;

verus! {

/// The address-family numbers of the native-table platform.
pub const NATIVE_AF_UNSPEC: u16 = 0;

pub const NATIVE_AF_INET: u16 = 2;

pub const NATIVE_AF_INET6: u16 = 23;

/// One forwarding-table row as plain values: the destination prefix with its
/// family discriminant, the next hop with its own, the interface index, the
/// 64-bit interface identifier, and the metric. The identifier and metric are
/// optional on the way in (absent means: leave what the platform's row
/// initializer put there) and always present on the way out.
#[derive(Clone, Copy, PartialEq, Eq, Structural, Debug)]
pub struct NativeRow {
    pub dest_family: u16,
    pub dest_v4: u32,
    pub dest_v6: u128,
    pub prefix_len: u8,
    pub hop_family: u16,
    pub hop_v4: u32,
    pub hop_v6: u128,
    pub if_index: u32,
    pub luid: Option<u64>,
    pub metric: Option<u32>,
}

/// The route a row converts to: destination and prefix by the row's family,
/// the next hop only when its discriminant names an IP family, the interface
/// index, identifier and metric copied over. The interface name is not in the
/// row; callers back-fill it from the index where they want it.
pub open spec fn spec_row_to_route(row: NativeRow) -> Route {
    Route {
        destination: if row.dest_family == NATIVE_AF_INET {
            IpAddress::V4(row.dest_v4)
        } else {
            IpAddress::V6(row.dest_v6)
        },
        prefix: row.prefix_len,
        gateway: if row.hop_family == NATIVE_AF_INET {
            Some(IpAddress::V4(row.hop_v4))
        } else if row.hop_family == NATIVE_AF_INET6 {
            Some(IpAddress::V6(row.hop_v6))
        } else {
            None
        },
        if_name: None,
        if_index: Some(row.if_index),
        table: 0,
        source: None,
        source_prefix: 0,
        pref_source: None,
        metric: row.metric,
        luid: row.luid,
    }
}

/// Converts one row to a `Route`. A row whose destination names neither IP
/// family is no route of this table and is left out by the precondition.
pub fn row_to_route(row: &NativeRow) -> (r: Route)
    requires
        row.dest_family == NATIVE_AF_INET || row.dest_family == NATIVE_AF_INET6,
    ensures
        r == spec_row_to_route(*row),
{
    let destination = if row.dest_family == NATIVE_AF_INET {
        IpAddress::V4(row.dest_v4)
    } else {
        IpAddress::V6(row.dest_v6)
    };
    let gateway = if row.hop_family == NATIVE_AF_INET {
        Some(IpAddress::V4(row.hop_v4))
    } else if row.hop_family == NATIVE_AF_INET6 {
        Some(IpAddress::V6(row.hop_v6))
    } else {
        None
    };
    Route {
        destination,
        prefix: row.prefix_len,
        gateway,
        if_name: None,
        if_index: Some(row.if_index),
        table: 0,
        source: None,
        source_prefix: 0,
        pref_source: None,
        metric: row.metric,
        luid: row.luid,
    }
}

/// The row a route converts to: every address field written carries its
/// family discriminant explicitly, and a route without a gateway still sets
/// the next hop's discriminant to the destination's family over the
/// zero-initialized address. The interface index is the effective one, or
/// zero when the route names no interface.
pub open spec fn spec_route_to_row(route: Route, ifc: IfaceResolution) -> NativeRow {
    NativeRow {
        dest_family: if route.destination is V4 {
            NATIVE_AF_INET
        } else {
            NATIVE_AF_INET6
        },
        dest_v4: match route.destination {
            IpAddress::V4(x) => x,
            IpAddress::V6(_) => 0,
        },
        dest_v6: match route.destination {
            IpAddress::V4(_) => 0,
            IpAddress::V6(x) => x,
        },
        prefix_len: route.prefix,
        hop_family: match route.gateway {
            Some(IpAddress::V4(_)) => NATIVE_AF_INET,
            Some(IpAddress::V6(_)) => NATIVE_AF_INET6,
            None => if route.destination is V4 {
                NATIVE_AF_INET
            } else {
                NATIVE_AF_INET6
            },
        },
        hop_v4: match route.gateway {
            Some(IpAddress::V4(x)) => x,
            _ => 0,
        },
        hop_v6: match route.gateway {
            Some(IpAddress::V6(x)) => x,
            _ => 0,
        },
        if_index: match route.spec_effective_index(ifc) {
            Some(i) => i,
            None => 0,
        },
        luid: route.luid,
        metric: route.metric,
    }
}

/// Converts a route to a row for the insert and delete calls: validation
/// first, then the field copy with explicit family discriminants. Fails
/// exactly when validation fails, with its error.
pub fn route_to_row(route: &Route, ifc: &IfaceResolution) -> (r: Result<NativeRow, RouteError>)
    ensures
        r is Ok <==> route.spec_check(*ifc) is Ok,
        route.spec_check(*ifc) is Err ==> r == Err::<NativeRow, _>(route.spec_check(*ifc)->Err_0),
        r is Ok ==> r->Ok_0 == spec_route_to_row(*route, *ifc),
{
    match route.check(ifc) {
        Err(e) => {
            return Err(e);
        },
        Ok(()) => {},
    }
    let (dest_family, dest_v4, dest_v6) = match route.destination {
        IpAddress::V4(x) => (NATIVE_AF_INET, x, 0u128),
        IpAddress::V6(x) => (NATIVE_AF_INET6, 0u32, x),
    };
    let (hop_family, hop_v4, hop_v6) = match route.gateway {
        Some(IpAddress::V4(x)) => (NATIVE_AF_INET, x, 0u128),
        Some(IpAddress::V6(x)) => (NATIVE_AF_INET6, 0u32, x),
        None => (dest_family, 0u32, 0u128),
    };
    let if_index = match route.effective_index(ifc) {
        Some(i) => i,
        None => 0,
    };
    Ok(
        NativeRow {
            dest_family,
            dest_v4,
            dest_v6,
            prefix_len: route.prefix,
            hop_family,
            hop_v4,
            hop_v6,
            if_index,
            luid: route.luid,
            metric: route.metric,
        },
    )
}

/// Round trip: the row written for a valid route reads back as a route equal
/// on every field the row carries both ways — destination and prefix, the
/// gateway when one is set (a route without one reads back with the family's
/// unspecified next hop, since the row's discriminant is always set), the
/// identifier and the metric. The row's interface index is the effective one,
/// so it reads back as that index, or zero when the route names no interface.
pub proof fn lemma_row_round_trip(route: Route, ifc: IfaceResolution)
    ensures
        ({
            let back = spec_row_to_route(spec_route_to_row(route, ifc));
            &&& back.destination == route.destination
            &&& back.prefix == route.prefix
            &&& route.gateway is Some ==> back.gateway == route.gateway
            &&& back.if_index == Some(
                match route.spec_effective_index(ifc) {
                    Some(i) => i,
                    None => 0u32,
                },
            )
            &&& back.luid == route.luid
            &&& back.metric == route.metric
        }),
{
}

/// The UTF-16 code units of a string: what `str::encode_utf16` yields, a
/// function of the characters alone.
pub uninterp spec fn utf16_units_of(s: Seq<char>) -> Seq<u16>;

/// Relies on `str::encode_utf16`: the string's UTF-16 code units, in order.
#[verifier::external_body]
fn utf16_units(s: &str) -> (r: Vec<u16>)
    ensures
        r@ == utf16_units_of(s@),
{
    s.encode_utf16().collect()
}

/// The zero-terminated UTF-16 form of a name, as the platform's wide-string
/// calls take it: the code units with one terminating zero appended.
pub fn encode_utf16(s: &str) -> (r: Vec<u16>)
    ensures
        r@ == utf16_units_of(s@).push(0u16),
{
    let mut v = utf16_units(s);
    v.push(0);
    v
}

/// The characters `String::from_utf16_lossy` decodes from a run of code
/// units: a function of the units alone.
pub uninterp spec fn utf16_lossy_of(units: Seq<u16>) -> Seq<char>;

/// Relies on `String::from_utf16_lossy`: the decoded characters, with the
/// replacement character for invalid sequences.
#[verifier::external_body]
fn utf16_lossy(units: &[u16]) -> (r: String)
    ensures
        r@ == utf16_lossy_of(units@),
{
    String::from_utf16_lossy(units)
}

/// The position of the first zero unit, or the length when none is zero.
pub open spec fn spec_terminator_pos(units: Seq<u16>) -> int
    decreases units.len(),
{
    if units.len() == 0 {
        0
    } else if units[0] == 0 {
        0
    } else {
        1 + spec_terminator_pos(units.drop_first())
    }
}

/// A position before which no unit is zero, at which the units end or hold a
/// zero, is the terminator position.
proof fn lemma_terminator_pos(units: Seq<u16>, k: int)
    requires
        0 <= k <= units.len(),
        forall|j: int| 0 <= j < k ==> units[j] != 0,
        k == units.len() || units[k] == 0,
    ensures
        spec_terminator_pos(units) == k,
    decreases k,
{
    if k == 0 {
    } else {
        assert(units[0] != 0);
        lemma_terminator_pos(units.drop_first(), k - 1);
    }
}

/// Decodes a zero-terminated UTF-16 buffer, as the platform's wide-string
/// calls fill it: the units before the first zero (or all of them, when none
/// is zero), decoded leniently.
pub fn decode_utf16(units: &[u16]) -> (r: String)
    ensures
        r@ == utf16_lossy_of(units@.take(spec_terminator_pos(units@))),
{
    let n = units.len();
    let mut k: usize = 0;
    while k < n && units[k] != 0
        invariant
            k <= n,
            n == units@.len(),
            forall|j: int| 0 <= j < k ==> units@[j] != 0,
        decreases n - k,
    {
        k += 1;
    }
    proof {
        lemma_terminator_pos(units@, k as int);
        assert(units@.subrange(0, k as int) =~= units@.take(spec_terminator_pos(units@)));
    }
    let head = slice_subrange(units, 0, k);
    utf16_lossy(head)
}

} // verus!
