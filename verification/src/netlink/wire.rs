//! The trusted boundary to the netlink crates. The outside route-message and
//! route-address types are declared opaque; names describe what such values
//! hold and what the outside serializer and parser compute; small wrappers
//! build, serialize and parse messages. Each wrapper's comment names the
//! outside function relied on.

use crate::addr::IpAddress;
use crate::route::RouteError;
use netlink_packet_core::{
    NetlinkHeader, NetlinkMessage, NetlinkPayload, NLM_F_ACK, NLM_F_CREATE, NLM_F_DUMP, NLM_F_EXCL,
    NLM_F_REQUEST,
};
use netlink_packet_route::route::{
    RouteAddress, RouteAttribute, RouteMessage, RouteProtocol, RouteScope, RouteType,
};
use netlink_packet_route::RouteNetlinkMessage::{DelRoute, NewRoute};
use netlink_packet_route::{AddressFamily, RouteNetlinkMessage};
use core::num::NonZeroI32;
use vstd::prelude::*;

verus! {

/// Address family of a route-message header, as this library reads it.
#[derive(Clone, Copy, PartialEq, Eq, Structural, Debug)]
pub enum NlFamily {
    Inet,
    Inet6,
    Other,
}

/// The header fields of a netlink route message that this library reads and
/// writes.
#[derive(Clone, Copy, PartialEq, Eq, Structural, Debug)]
pub struct NlMsgHeader {
    pub family: NlFamily,
    pub dst_prefix: u8,
    pub src_prefix: u8,
    pub table: u8,
}

/// One route attribute of the fixed attribute-to-field table. The
/// address-carrying variants hold `None` when the wire held a non-IP address
/// (MPLS or raw bytes), which the decoder treats as an absent value, as the
/// kernel's own tools do.
#[derive(Clone, Copy, PartialEq, Eq, Structural, Debug)]
pub enum NlAttr {
    Destination(Option<IpAddress>),
    Source(Option<IpAddress>),
    Gateway(Option<IpAddress>),
    PrefSource(Option<IpAddress>),
    Oif(u32),
    Priority(u32),
    Unsupported,
}

/// Which address-carrying attribute to append to a request.
#[derive(Clone, Copy, PartialEq, Eq, Structural, Debug)]
pub enum NlAddrKind {
    Destination,
    Source,
    Gateway,
    PrefSource,
}

/// The model attribute that appending `kind` with `addr` produces.
pub open spec fn addr_attr(kind: NlAddrKind, addr: IpAddress) -> NlAttr {
    match kind {
        NlAddrKind::Destination => NlAttr::Destination(Some(addr)),
        NlAddrKind::Source => NlAttr::Source(Some(addr)),
        NlAddrKind::Gateway => NlAttr::Gateway(Some(addr)),
        NlAddrKind::PrefSource => NlAttr::PrefSource(Some(addr)),
    }
}

/// The kind of request to frame: a table dump, an add, or a delete.
#[derive(Clone, Copy, PartialEq, Eq, Structural, Debug)]
pub enum NlReqKind {
    List,
    Add,
    Delete,
}

/// A parsed netlink payload, at the specification level: the terminator, an
/// embedded status (`None` code is an acknowledgement), a route message of
/// either direction as its model, or anything else.
pub enum NlParsedPayload {
    Done,
    Error(Option<i32>),
    NewRoute(NlMsgHeader, Seq<NlAttr>),
    DelRoute(NlMsgHeader, Seq<NlAttr>),
    Other,
}

#[verifier::external_type_specification]
#[verifier::external_body]
pub struct ExRouteMessage(RouteMessage);

#[verifier::external_type_specification]
#[verifier::external_body]
pub struct ExRouteAddress(RouteAddress);

/// The header fields that a route-message value holds.
pub uninterp spec fn rm_header(rm: RouteMessage) -> NlMsgHeader;

/// The attributes that a route-message value holds, each as the model reads
/// it.
pub uninterp spec fn rm_attrs(rm: RouteMessage) -> Seq<NlAttr>;

/// The IP address a route-address value holds; `None` for the non-IP kinds.
pub uninterp spec fn route_addr_model(a: RouteAddress) -> Option<IpAddress>;

/// What `NetlinkMessage::<RouteNetlinkMessage>::deserialize` parses from the
/// front of a byte batch: the framed length it consumed and the payload's
/// model, or the decode failure.
pub uninterp spec fn nl_parsed(bytes: Seq<u8>) -> Result<(usize, NlParsedPayload), RouteError>;

/// The serialization of the request that this library frames for the given
/// kind, header fields and attributes: the bytes that
/// `NetlinkMessage::serialize` emits for the message `rm_new` builds from the
/// header (protocol static, scope universe, type unicast) with exactly those
/// attributes appended, under the kind's flags and message type.
pub uninterp spec fn nl_request_bytes(kind: NlReqKind, h: NlMsgHeader, attrs: Seq<NlAttr>) -> Seq<
    u8,
>;

/// Relies on `RouteMessage::default`: a fresh message with no attributes,
/// whose header this body fills with the given fields, protocol static, scope
/// universe and type unicast, as every request of this library uses.
#[verifier::external_body]
pub(crate) fn rm_new(h: &NlMsgHeader) -> (r: RouteMessage)
    requires
        !(h.family is Other),
    ensures
        rm_header(r) == *h,
        rm_attrs(r) == Seq::<NlAttr>::empty(),
{
    let mut rm = RouteMessage::default();
    rm.header.address_family = match h.family {
        NlFamily::Inet6 => AddressFamily::Inet6,
        _ => AddressFamily::Inet,
    };
    rm.header.destination_prefix_length = h.dst_prefix;
    rm.header.source_prefix_length = h.src_prefix;
    rm.header.table = h.table;
    rm.header.protocol = RouteProtocol::Static;
    rm.header.scope = RouteScope::Universe;
    rm.header.kind = RouteType::Unicast;
    rm
}

/// Relies on `Vec::push` and on the standard conversions between the IPv4 /
/// IPv6 address types and `u32` / `u128` (the integer whose big-endian bytes
/// are the address's octets): appends one address-carrying attribute.
#[verifier::external_body]
pub(crate) fn rm_push_addr(rm: &mut RouteMessage, kind: NlAddrKind, addr: IpAddress)
    ensures
        rm_header(*final(rm)) == rm_header(*old(rm)),
        rm_attrs(*final(rm)) == rm_attrs(*old(rm)).push(addr_attr(kind, addr)),
{
    let ra = match addr {
        IpAddress::V4(x) => RouteAddress::Inet(x.into()),
        IpAddress::V6(x) => RouteAddress::Inet6(x.into()),
    };
    let attr = match kind {
        NlAddrKind::Destination => RouteAttribute::Destination(ra),
        NlAddrKind::Source => RouteAttribute::Source(ra),
        NlAddrKind::Gateway => RouteAttribute::Gateway(ra),
        NlAddrKind::PrefSource => RouteAttribute::PrefSource(ra),
    };
    rm.attributes.push(attr);
}

/// Relies on `Vec::push`: appends the output-interface attribute.
#[verifier::external_body]
pub(crate) fn rm_push_oif(rm: &mut RouteMessage, if_index: u32)
    ensures
        rm_header(*final(rm)) == rm_header(*old(rm)),
        rm_attrs(*final(rm)) == rm_attrs(*old(rm)).push(NlAttr::Oif(if_index)),
{
    rm.attributes.push(RouteAttribute::Oif(if_index));
}

/// Relies on `Vec::push`: appends the priority (metric) attribute.
#[verifier::external_body]
pub(crate) fn rm_push_priority(rm: &mut RouteMessage, metric: u32)
    ensures
        rm_header(*final(rm)) == rm_header(*old(rm)),
        rm_attrs(*final(rm)) == rm_attrs(*old(rm)).push(NlAttr::Priority(metric)),
{
    rm.attributes.push(RouteAttribute::Priority(metric));
}

/// Relies on `NetlinkMessage::new`, `finalize` and `serialize`: frames the
/// message under the request kind's flags (REQUEST|DUMP for a list,
/// REQUEST|CREATE|EXCL|ACK for an add, REQUEST|ACK for a delete) and the
/// message type that follows the payload kind, and emits the bytes. Only
/// messages built by `rm_new` and the `rm_push` wrappers reach this function,
/// so the bytes are a function of the kind and the message's model.
#[verifier::external_body]
pub(crate) fn serialize_request(kind: NlReqKind, rm: RouteMessage) -> (r: Vec<u8>)
    ensures
        r@ == nl_request_bytes(kind, rm_header(rm), rm_attrs(rm)),
{
    let mut hdr = NetlinkHeader::default();
    let dump = NLM_F_REQUEST | NLM_F_DUMP;
    let create = NLM_F_REQUEST | NLM_F_CREATE | NLM_F_EXCL | NLM_F_ACK;
    let payload = match kind {
        NlReqKind::List => (dump, RouteNetlinkMessage::GetRoute(rm)),
        NlReqKind::Add => (create, RouteNetlinkMessage::NewRoute(rm)),
        NlReqKind::Delete => (NLM_F_REQUEST | NLM_F_ACK, RouteNetlinkMessage::DelRoute(rm)),
    };
    hdr.flags = payload.0;
    let mut packet = NetlinkMessage::new(hdr, NetlinkPayload::from(payload.1));
    packet.finalize();
    let mut buf = vec![0u8; packet.header.length as usize];
    packet.serialize(&mut buf[..]);
    buf
}

/// A payload as the parser hands it back, still holding the outside
/// route-message value for the route-carrying kinds.
pub enum RawNlPayload {
    Done,
    ErrorCode(Option<i32>),
    NewRoute(RouteMessage),
    DelRoute(RouteMessage),
    Other,
}

/// Relies on `NetlinkMessage::<RouteNetlinkMessage>::deserialize`: parses one
/// framed message from the front of `bytes`. On success the consumed length
/// is the header's length field, which the parser has checked to be at least
/// the 16-byte netlink header and at most the buffer's length.
#[verifier::external_body]
pub(crate) fn parse_message(bytes: &[u8]) -> (r: Result<(usize, RawNlPayload), RouteError>)
    ensures
        match r {
            Ok((n, p)) => {
                &&& 16 <= n <= bytes@.len()
                &&& match p {
                    RawNlPayload::Done => nl_parsed(bytes@) == Ok::<_, RouteError>(
                        (n, NlParsedPayload::Done),
                    ),
                    RawNlPayload::ErrorCode(c) => nl_parsed(bytes@) == Ok::<_, RouteError>(
                        (n, NlParsedPayload::Error(c)),
                    ),
                    RawNlPayload::NewRoute(rm) => nl_parsed(bytes@) == Ok::<_, RouteError>(
                        (n, NlParsedPayload::NewRoute(rm_header(rm), rm_attrs(rm))),
                    ),
                    RawNlPayload::DelRoute(rm) => nl_parsed(bytes@) == Ok::<_, RouteError>(
                        (n, NlParsedPayload::DelRoute(rm_header(rm), rm_attrs(rm))),
                    ),
                    RawNlPayload::Other => nl_parsed(bytes@) == Ok::<_, RouteError>(
                        (n, NlParsedPayload::Other),
                    ),
                }
            },
            Err(e) => nl_parsed(bytes@) == Err::<(usize, NlParsedPayload), _>(e),
        },
{
    match NetlinkMessage::<RouteNetlinkMessage>::deserialize(bytes) {
        Err(_) => Err(RouteError::Decode),
        Ok(m) => {
            let n = m.header.length as usize;
            let p = match m.payload {
                NetlinkPayload::Done(_) => RawNlPayload::Done,
                NetlinkPayload::Error(e) => RawNlPayload::ErrorCode(e.code.map(NonZeroI32::get)),
                NetlinkPayload::InnerMessage(NewRoute(rm)) => RawNlPayload::NewRoute(rm),
                NetlinkPayload::InnerMessage(DelRoute(rm)) => RawNlPayload::DelRoute(rm),
                _ => RawNlPayload::Other,
            };
            Ok((n, p))
        },
    }
}

/// Relies on the public `header` fields of `RouteMessage`: reads the header
/// into the model, mapping the families other than inet/inet6 to `Other`.
#[verifier::external_body]
pub(crate) fn rm_header_fields(rm: &RouteMessage) -> (r: NlMsgHeader)
    ensures
        r == rm_header(*rm),
{
    let family = match rm.header.address_family {
        AddressFamily::Inet => NlFamily::Inet,
        AddressFamily::Inet6 => NlFamily::Inet6,
        _ => NlFamily::Other,
    };
    NlMsgHeader {
        family,
        dst_prefix: rm.header.destination_prefix_length,
        src_prefix: rm.header.source_prefix_length,
        table: rm.header.table,
    }
}

/// Relies on the public `attributes` vector of `RouteMessage`: its length.
#[verifier::external_body]
pub(crate) fn rm_attr_count(rm: &RouteMessage) -> (r: usize)
    ensures
        r == rm_attrs(*rm).len(),
{
    rm.attributes.len()
}

/// One attribute as the parser handed it back, the address-carrying kinds
/// still holding the outside route-address value.
pub enum RawNlAttr {
    Destination(RouteAddress),
    Source(RouteAddress),
    Gateway(RouteAddress),
    PrefSource(RouteAddress),
    Oif(u32),
    Priority(u32),
    Unsupported,
}

/// Relies on the public `attributes` vector of `RouteMessage`: reads the
/// attribute at `k`, keeping the fixed attribute table of the decoder and
/// folding every other attribute kind to `Unsupported`.
#[verifier::external_body]
pub(crate) fn rm_attr_at(rm: &RouteMessage, k: usize) -> (r: RawNlAttr)
    requires
        k < rm_attrs(*rm).len(),
    ensures
        match r {
            RawNlAttr::Destination(a) => rm_attrs(*rm)[k as int] == NlAttr::Destination(
                route_addr_model(a),
            ),
            RawNlAttr::Source(a) => rm_attrs(*rm)[k as int] == NlAttr::Source(route_addr_model(a)),
            RawNlAttr::Gateway(a) => rm_attrs(*rm)[k as int] == NlAttr::Gateway(
                route_addr_model(a),
            ),
            RawNlAttr::PrefSource(a) => rm_attrs(*rm)[k as int] == NlAttr::PrefSource(
                route_addr_model(a),
            ),
            RawNlAttr::Oif(v) => rm_attrs(*rm)[k as int] == NlAttr::Oif(v),
            RawNlAttr::Priority(v) => rm_attrs(*rm)[k as int] == NlAttr::Priority(v),
            RawNlAttr::Unsupported => rm_attrs(*rm)[k as int] == NlAttr::Unsupported,
        },
{
    match &rm.attributes[k] {
        RouteAttribute::Destination(a) => RawNlAttr::Destination(a.clone()),
        RouteAttribute::Source(a) => RawNlAttr::Source(a.clone()),
        RouteAttribute::Gateway(a) => RawNlAttr::Gateway(a.clone()),
        RouteAttribute::PrefSource(a) => RawNlAttr::PrefSource(a.clone()),
        RouteAttribute::Oif(v) => RawNlAttr::Oif(*v),
        RouteAttribute::Priority(v) => RawNlAttr::Priority(*v),
        _ => RawNlAttr::Unsupported,
    }
}

/// Relies on the standard conversions from the IPv4 / IPv6 address types to
/// `u32` / `u128` (the integer whose big-endian bytes are the address's
/// octets): the IP address a route-address value holds, `None` for the non-IP
/// kinds.
#[verifier::external_body]
pub(crate) fn route_addr_ip(a: &RouteAddress) -> (r: Option<IpAddress>)
    ensures
        r == route_addr_model(*a),
{
    match a {
        RouteAddress::Inet(x) => Some(IpAddress::V4(u32::from(*x))),
        RouteAddress::Inet6(x) => Some(IpAddress::V6(u128::from(*x))),
        _ => None,
    }
}

} // verus!
