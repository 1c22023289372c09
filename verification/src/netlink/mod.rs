//! The netlink transport's translation engine: building route requests,
//! decoding multi-message responses with their dump-termination and embedded
//! status semantics, the fixed attribute-to-field mapping in both directions,
//! and the dual-family list policy.

mod wire;

use crate::addr::IpAddress;
use crate::route::{IfaceResolution, Route, RouteChange, RouteError};
use vstd::prelude::*;
use vstd::slice::slice_subrange;

pub use wire::{
    addr_attr, nl_parsed, nl_request_bytes, rm_attrs, rm_header, route_addr_model, NlAddrKind,
    NlAttr, NlFamily, NlMsgHeader, NlParsedPayload, NlReqKind, RawNlAttr, RawNlPayload,
};

use wire::{
    parse_message, rm_attr_at, rm_attr_count, rm_header_fields, rm_new, rm_push_addr, rm_push_oif,
    rm_push_priority, route_addr_ip, serialize_request,
};

verus! {

/// The header of the request framed for `route`.
pub open spec fn spec_request_header(route: Route) -> NlMsgHeader {
    NlMsgHeader {
        family: if route.destination is V4 {
            NlFamily::Inet
        } else {
            NlFamily::Inet6
        },
        dst_prefix: route.prefix,
        src_prefix: if route.source is Some {
            route.source_prefix
        } else {
            0
        },
        table: route.table,
    }
}

/// The attribute list of a request for `route`, in the exact order the
/// encoder writes: destination, then gateway, output interface, priority,
/// source and preferred source, each when present.
pub open spec fn spec_route_attrs(route: Route, ifc: IfaceResolution) -> Seq<NlAttr> {
    let s = seq![NlAttr::Destination(Some(route.destination))];
    let s = if route.gateway is Some {
        s.push(NlAttr::Gateway(Some(route.gateway->0)))
    } else {
        s
    };
    let s = if route.spec_effective_index(ifc) is Some {
        s.push(NlAttr::Oif(route.spec_effective_index(ifc)->0))
    } else {
        s
    };
    let s = if route.metric is Some {
        s.push(NlAttr::Priority(route.metric->0))
    } else {
        s
    };
    let s = if route.source is Some {
        s.push(NlAttr::Source(Some(route.source->0)))
    } else {
        s
    };
    if route.pref_source is Some {
        s.push(NlAttr::PrefSource(Some(route.pref_source->0)))
    } else {
        s
    }
}

/// Frames an add or delete request for `route`: validation first, then the
/// header and the attribute list in the encoder's order, serialized by the
/// netlink crates. Fails exactly when validation fails, with its error.
pub fn build_route_request(kind: NlReqKind, route: &Route, ifc: &IfaceResolution) -> (r: Result<
    Vec<u8>,
    RouteError,
>)
    ensures
        r is Ok <==> route.spec_check(*ifc) is Ok,
        route.spec_check(*ifc) is Err ==> r == Err::<Vec<u8>, _>(route.spec_check(*ifc)->Err_0),
        r is Ok ==> r->Ok_0@ == nl_request_bytes(
            kind,
            spec_request_header(*route),
            spec_route_attrs(*route, *ifc),
        ),
{
    match route.check(ifc) {
        Err(e) => {
            return Err(e);
        },
        Ok(()) => {},
    }
    let h = NlMsgHeader {
        family: if route.destination.is_v4() {
            NlFamily::Inet
        } else {
            NlFamily::Inet6
        },
        dst_prefix: route.prefix,
        src_prefix: if route.source.is_some() {
            route.source_prefix
        } else {
            0
        },
        table: route.table,
    };
    let mut rm = rm_new(&h);
    rm_push_addr(&mut rm, NlAddrKind::Destination, route.destination);
    if let Some(gw) = route.gateway {
        rm_push_addr(&mut rm, NlAddrKind::Gateway, gw);
    }
    if let Some(idx) = route.effective_index(ifc) {
        rm_push_oif(&mut rm, idx);
    }
    if let Some(m) = route.metric {
        rm_push_priority(&mut rm, m);
    }
    if let Some(src) = route.source {
        rm_push_addr(&mut rm, NlAddrKind::Source, src);
    }
    if let Some(ps) = route.pref_source {
        rm_push_addr(&mut rm, NlAddrKind::PrefSource, ps);
    }
    proof {
        assert(rm_attrs(rm) =~= spec_route_attrs(*route, *ifc));
    }
    Ok(serialize_request(kind, rm))
}

/// Frames one table-dump request for the given family.
pub fn build_list_request(v4: bool) -> (r: Vec<u8>)
    ensures
        r@ == nl_request_bytes(
            NlReqKind::List,
            NlMsgHeader {
                family: if v4 {
                    NlFamily::Inet
                } else {
                    NlFamily::Inet6
                },
                dst_prefix: 0,
                src_prefix: 0,
                table: 0,
            },
            Seq::<NlAttr>::empty(),
        ),
{
    let h = NlMsgHeader {
        family: if v4 {
            NlFamily::Inet
        } else {
            NlFamily::Inet6
        },
        dst_prefix: 0,
        src_prefix: 0,
        table: 0,
    };
    let rm = rm_new(&h);
    serialize_request(NlReqKind::List, rm)
}

/// The field slots that the attribute walk fills; a later attribute of the
/// same kind overwrites an earlier one.
#[derive(Clone, Copy, PartialEq, Eq, Structural, Debug)]
pub struct AttrSlots {
    pub destination: Option<IpAddress>,
    pub source: Option<IpAddress>,
    pub gateway: Option<IpAddress>,
    pub pref_source: Option<IpAddress>,
    pub if_index: Option<u32>,
    pub metric: Option<u32>,
}

pub open spec fn empty_slots() -> AttrSlots {
    AttrSlots {
        destination: None,
        source: None,
        gateway: None,
        pref_source: None,
        if_index: None,
        metric: None,
    }
}

/// One step of the attribute-to-field table.
pub open spec fn spec_apply_attr(s: AttrSlots, a: NlAttr) -> AttrSlots {
    match a {
        NlAttr::Destination(o) => AttrSlots { destination: o, ..s },
        NlAttr::Source(o) => AttrSlots { source: o, ..s },
        NlAttr::Gateway(o) => AttrSlots { gateway: o, ..s },
        NlAttr::PrefSource(o) => AttrSlots { pref_source: o, ..s },
        NlAttr::Oif(v) => AttrSlots { if_index: Some(v), ..s },
        NlAttr::Priority(v) => AttrSlots { metric: Some(v), ..s },
        NlAttr::Unsupported => s,
    }
}

/// The slots after walking all attributes in order.
pub open spec fn spec_attr_slots(attrs: Seq<NlAttr>) -> AttrSlots
    decreases attrs.len(),
{
    if attrs.len() == 0 {
        empty_slots()
    } else {
        spec_apply_attr(spec_attr_slots(attrs.drop_last()), attrs.last())
    }
}

/// Walking one more attribute applies one more step.
pub proof fn lemma_attr_slots_push(s: Seq<NlAttr>, a: NlAttr)
    ensures
        spec_attr_slots(s.push(a)) == spec_apply_attr(spec_attr_slots(s), a),
{
    assert(s.push(a).drop_last() =~= s);
}

/// A decoded route message as a `Route`: the slot fields, the destination
/// synthesized as the family's unspecified address when absent (any family
/// other than inet/inet6 is then a decode error), the prefix lengths and
/// table from the header, the source prefix only alongside a source address.
/// The interface name is never on the wire; callers back-fill it from the
/// index where they want it.
pub open spec fn spec_msg_to_route(h: NlMsgHeader, attrs: Seq<NlAttr>) -> Result<
    Route,
    RouteError,
> {
    let sl = spec_attr_slots(attrs);
    if sl.destination is None && h.family is Other {
        Err(RouteError::InvalidDestinationFamily)
    } else {
        let destination = if sl.destination is Some {
            sl.destination->0
        } else if h.family is Inet {
            IpAddress::V4(0)
        } else {
            IpAddress::V6(0)
        };
        Ok(
            Route {
                destination,
                prefix: h.dst_prefix,
                gateway: sl.gateway,
                if_name: None,
                if_index: sl.if_index,
                table: h.table,
                source: sl.source,
                source_prefix: if sl.source is Some {
                    h.src_prefix
                } else {
                    0
                },
                pref_source: sl.pref_source,
                metric: sl.metric,
                luid: None,
            },
        )
    }
}

/// Converts a decoded route message to a `Route` by the fixed
/// attribute-to-field table.
pub fn msg_to_route(h: &NlMsgHeader, attrs: &Vec<NlAttr>) -> (r: Result<Route, RouteError>)
    ensures
        r == spec_msg_to_route(*h, attrs@),
{
    let mut sl = AttrSlots {
        destination: None,
        source: None,
        gateway: None,
        pref_source: None,
        if_index: None,
        metric: None,
    };
    let mut k: usize = 0;
    while k < attrs.len()
        invariant
            k <= attrs@.len(),
            sl == spec_attr_slots(attrs@.subrange(0, k as int)),
        decreases attrs@.len() - k,
    {
        proof {
            assert(attrs@.subrange(0, k + 1 as int).drop_last() =~= attrs@.subrange(0, k as int));
            assert(attrs@.subrange(0, k + 1 as int).last() == attrs@[k as int]);
        }
        match attrs[k] {
            NlAttr::Destination(o) => {
                sl.destination = o;
            },
            NlAttr::Source(o) => {
                sl.source = o;
            },
            NlAttr::Gateway(o) => {
                sl.gateway = o;
            },
            NlAttr::PrefSource(o) => {
                sl.pref_source = o;
            },
            NlAttr::Oif(v) => {
                sl.if_index = Some(v);
            },
            NlAttr::Priority(v) => {
                sl.metric = Some(v);
            },
            NlAttr::Unsupported => {},
        }
        k += 1;
    }
    proof {
        assert(attrs@.subrange(0, attrs@.len() as int) =~= attrs@);
    }
    if sl.destination.is_none() && matches!(h.family, NlFamily::Other) {
        return Err(RouteError::InvalidDestinationFamily);
    }
    let destination = match sl.destination {
        Some(d) => d,
        None => {
            if matches!(h.family, NlFamily::Inet) {
                IpAddress::V4(0)
            } else {
                IpAddress::V6(0)
            }
        },
    };
    Ok(
        Route {
            destination,
            prefix: h.dst_prefix,
            gateway: sl.gateway,
            if_name: None,
            if_index: sl.if_index,
            table: h.table,
            source: sl.source,
            source_prefix: if sl.source.is_some() {
                h.src_prefix
            } else {
                0
            },
            pref_source: sl.pref_source,
            metric: sl.metric,
            luid: None,
        },
    )
}

/// Reads the attribute models out of a parsed route message.
fn msg_attrs(rm: &netlink_packet_route::route::RouteMessage) -> (r: Vec<NlAttr>)
    ensures
        r@ == rm_attrs(*rm),
{
    let n = rm_attr_count(rm);
    let mut out: Vec<NlAttr> = Vec::new();
    let mut k: usize = 0;
    while k < n
        invariant
            k <= n,
            n == rm_attrs(*rm).len(),
            out@ =~= rm_attrs(*rm).subrange(0, k as int),
        decreases n - k,
    {
        let a = match rm_attr_at(rm, k) {
            RawNlAttr::Destination(a) => NlAttr::Destination(route_addr_ip(&a)),
            RawNlAttr::Source(a) => NlAttr::Source(route_addr_ip(&a)),
            RawNlAttr::Gateway(a) => NlAttr::Gateway(route_addr_ip(&a)),
            RawNlAttr::PrefSource(a) => NlAttr::PrefSource(route_addr_ip(&a)),
            RawNlAttr::Oif(v) => NlAttr::Oif(v),
            RawNlAttr::Priority(v) => NlAttr::Priority(v),
            RawNlAttr::Unsupported => NlAttr::Unsupported,
        };
        out.push(a);
        proof {
            assert(out@ =~= rm_attrs(*rm).subrange(0, k + 1 as int));
        }
        k += 1;
    }
    proof {
        assert(rm_attrs(*rm).subrange(0, n as int) =~= rm_attrs(*rm));
    }
    out
}

/// What one receive batch amounts to: the batch ended mid-dump (more messages
/// expected), it carried the dump terminator or an acknowledgement, or it
/// failed.
#[derive(Clone, Copy, PartialEq, Eq, Structural, Debug)]
pub enum NlBatchOutcome {
    MoreExpected,
    Terminated,
    Failed(RouteError),
}

/// The events a byte batch decodes to from `from` on, in arrival order, and
/// how the batch ended. A terminator or an embedded status ends the batch at
/// once: an absent code is an acknowledgement, a present one fails the call
/// carrying that code. Messages that are not route messages are skipped.
pub open spec fn spec_decode_batch(bytes: Seq<u8>, from: int) -> (Seq<RouteChange>, NlBatchOutcome)
    decreases bytes.len() - from,
{
    if from >= bytes.len() {
        (seq![], NlBatchOutcome::MoreExpected)
    } else {
        match nl_parsed(bytes.skip(from)) {
            Err(e) => (seq![], NlBatchOutcome::Failed(e)),
            Ok((n, p)) => {
                if n < 16 || from + n > bytes.len() {
                    (seq![], NlBatchOutcome::Failed(RouteError::Decode))
                } else {
                    match p {
                        NlParsedPayload::Done => (seq![], NlBatchOutcome::Terminated),
                        NlParsedPayload::Error(c) => {
                            if c is None {
                                (seq![], NlBatchOutcome::Terminated)
                            } else {
                                (seq![], NlBatchOutcome::Failed(RouteError::Os(c->0)))
                            }
                        },
                        NlParsedPayload::NewRoute(h, attrs) => {
                            match spec_msg_to_route(h, attrs) {
                                Err(e) => (seq![], NlBatchOutcome::Failed(e)),
                                Ok(rt) => {
                                    let (evs, oc) = spec_decode_batch(bytes, from + n);
                                    (seq![RouteChange::Add(rt)] + evs, oc)
                                },
                            }
                        },
                        NlParsedPayload::DelRoute(h, attrs) => {
                            match spec_msg_to_route(h, attrs) {
                                Err(e) => (seq![], NlBatchOutcome::Failed(e)),
                                Ok(rt) => {
                                    let (evs, oc) = spec_decode_batch(bytes, from + n);
                                    (seq![RouteChange::Delete(rt)] + evs, oc)
                                },
                            }
                        },
                        NlParsedPayload::Other => spec_decode_batch(bytes, from + n),
                    }
                }
            },
        }
    }
}

/// Decodes one receive batch, appending the decoded events to `out` in
/// arrival order. Returns `Ok(true)` exactly when the batch carried the dump
/// terminator or an acknowledgement (the caller should stop reading),
/// `Ok(false)` when the batch ended with more messages expected, and the
/// batch's error otherwise; events decoded before a failure stay appended.
pub fn decode_response(buf: &[u8], out: &mut Vec<RouteChange>) -> (r: Result<bool, RouteError>)
    ensures
        ({
            let (evs, oc) = spec_decode_batch(buf@, 0);
            &&& final(out)@ == old(out)@ + evs
            &&& match oc {
                NlBatchOutcome::MoreExpected => r == Ok::<bool, RouteError>(false),
                NlBatchOutcome::Terminated => r == Ok::<bool, RouteError>(true),
                NlBatchOutcome::Failed(e) => r == Err::<bool, RouteError>(e),
            }
        }),
{
    let ghost base = out@.len() as int;
    let mut offset: usize = 0;
    loop
        invariant
            offset <= buf@.len(),
            base == old(out)@.len(),
            out@.len() >= base,
            out@.subrange(0, base) == old(out)@,
            spec_decode_batch(buf@, 0) == {
                let (e2, oc2) = spec_decode_batch(buf@, offset as int);
                (out@.skip(base) + e2, oc2)
            },
        decreases buf@.len() - offset,
    {
        if offset >= buf.len() {
            proof {
                assert(out@ =~= old(out)@ + out@.skip(base));
                assert(out@.skip(base) + Seq::<RouteChange>::empty() =~= out@.skip(base));
            }
            return Ok(false);
        }
        let tail = slice_subrange(buf, offset, buf.len());
        proof {
            assert(tail@ =~= buf@.skip(offset as int));
        }
        match parse_message(tail) {
            Err(e) => {
                proof {
                    assert(out@ =~= old(out)@ + out@.skip(base));
                    assert(out@.skip(base) + Seq::<RouteChange>::empty() =~= out@.skip(base));
                }
                return Err(e);
            },
            Ok((n, p)) => {
                match p {
                    RawNlPayload::Done => {
                        proof {
                            assert(out@ =~= old(out)@ + out@.skip(base));
                            assert(out@.skip(base) + Seq::<RouteChange>::empty() =~= out@.skip(
                                base,
                            ));
                        }
                        return Ok(true);
                    },
                    RawNlPayload::ErrorCode(c) => {
                        proof {
                            assert(out@ =~= old(out)@ + out@.skip(base));
                            assert(out@.skip(base) + Seq::<RouteChange>::empty() =~= out@.skip(
                                base,
                            ));
                        }
                        match c {
                            None => {
                                return Ok(true);
                            },
                            Some(code) => {
                                return Err(RouteError::Os(code));
                            },
                        }
                    },
                    RawNlPayload::NewRoute(rm) => {
                        let h = rm_header_fields(&rm);
                        let attrs = msg_attrs(&rm);
                        match msg_to_route(&h, &attrs) {
                            Err(e) => {
                                proof {
                                    assert(out@ =~= old(out)@ + out@.skip(base));
                                    assert(out@.skip(base) + Seq::<RouteChange>::empty()
                                        =~= out@.skip(base));
                                }
                                return Err(e);
                            },
                            Ok(rt) => {
                                let ghost before = out@;
                                out.push(RouteChange::Add(rt));
                                proof {
                                    assert(out@.skip(base) =~= before.skip(base) + seq![
                                        RouteChange::Add(rt),
                                    ]);
                                    assert(out@.subrange(0, base) =~= before.subrange(0, base));
                                    let (e3, oc3) = spec_decode_batch(buf@, offset + n as int);
                                    assert(before.skip(base) + (seq![RouteChange::Add(rt)] + e3)
                                        =~= out@.skip(base) + e3);
                                }
                            },
                        }
                    },
                    RawNlPayload::DelRoute(rm) => {
                        let h = rm_header_fields(&rm);
                        let attrs = msg_attrs(&rm);
                        match msg_to_route(&h, &attrs) {
                            Err(e) => {
                                proof {
                                    assert(out@ =~= old(out)@ + out@.skip(base));
                                    assert(out@.skip(base) + Seq::<RouteChange>::empty()
                                        =~= out@.skip(base));
                                }
                                return Err(e);
                            },
                            Ok(rt) => {
                                let ghost before = out@;
                                out.push(RouteChange::Delete(rt));
                                proof {
                                    assert(out@.skip(base) =~= before.skip(base) + seq![
                                        RouteChange::Delete(rt),
                                    ]);
                                    assert(out@.subrange(0, base) =~= before.subrange(0, base));
                                    let (e3, oc3) = spec_decode_batch(buf@, offset + n as int);
                                    assert(before.skip(base) + (seq![RouteChange::Delete(rt)] + e3)
                                        =~= out@.skip(base) + e3);
                                }
                            },
                        }
                    },
                    RawNlPayload::Other => {},
                }
                offset += n;
            },
        }
    }
}

/// The routes of the add events, in order: a dump answers with add-kind
/// messages, the others are dropped.
pub open spec fn spec_add_routes(s: Seq<RouteChange>) -> Seq<Route>
    decreases s.len(),
{
    if s.len() == 0 {
        seq![]
    } else {
        spec_add_routes(s.drop_last()) + (match s.last() {
            RouteChange::Add(r) => seq![r],
            _ => seq![],
        })
    }
}

/// Keeps the routes of the add events, in order.
pub fn convert_add_route(list: &Vec<RouteChange>) -> (r: Vec<Route>)
    ensures
        r@ == spec_add_routes(list@),
{
    let mut out: Vec<Route> = Vec::new();
    let mut k: usize = 0;
    while k < list.len()
        invariant
            k <= list@.len(),
            out@ =~= spec_add_routes(list@.subrange(0, k as int)),
        decreases list@.len() - k,
    {
        proof {
            assert(list@.subrange(0, k + 1 as int).drop_last() =~= list@.subrange(0, k as int));
            assert(list@.subrange(0, k + 1 as int).last() == list@[k as int]);
        }
        match &list[k] {
            RouteChange::Add(rt) => {
                out.push(rt.clone());
            },
            _ => {},
        }
        k += 1;
    }
    proof {
        assert(list@.subrange(0, list@.len() as int) =~= list@);
    }
    out
}

/// The dual-family list policy: both families answered, the union; one
/// failed, the other's routes (partial success is not an error); both failed,
/// the first family's error.
pub fn merge_family_lists(v4: Result<Vec<Route>, RouteError>, v6: Result<Vec<Route>, RouteError>)
    -> (r: Result<Vec<Route>, RouteError>)
    ensures
        match (v4, v6) {
            (Ok(a), Ok(b)) => r is Ok && r->Ok_0@ == a@ + b@,
            (Ok(a), Err(_)) => r is Ok && r->Ok_0@ == a@,
            (Err(_), Ok(b)) => r is Ok && r->Ok_0@ == b@,
            (Err(e), Err(_)) => r == Err::<Vec<Route>, _>(e),
        },
{
    match (v4, v6) {
        (Ok(mut a), Ok(mut b)) => {
            a.append(&mut b);
            Ok(a)
        },
        (Ok(a), Err(_)) => Ok(a),
        (Err(_), Ok(b)) => Ok(b),
        (Err(e), Err(_)) => Err(e),
    }
}

/// Round trip: the request framed for a valid route decodes back to a route
/// equal on every field the wire format carries — destination and prefix,
/// gateway, the effective interface index, metric, table, and the source and
/// preferred-source extensions. Only the interface name and the native-table
/// identifier are not on the wire.
pub proof fn lemma_request_round_trip(route: Route, ifc: IfaceResolution)
    requires
        route.spec_check(ifc) is Ok,
    ensures
        ({
            let back = spec_msg_to_route(spec_request_header(route), spec_route_attrs(route, ifc));
            &&& back is Ok
            &&& back->Ok_0.destination == route.destination
            &&& back->Ok_0.prefix == route.prefix
            &&& back->Ok_0.gateway == route.gateway
            &&& back->Ok_0.if_index == route.spec_effective_index(ifc)
            &&& back->Ok_0.metric == route.metric
            &&& back->Ok_0.table == route.table
            &&& back->Ok_0.source == route.source
            &&& back->Ok_0.source_prefix == route.source_prefix || route.source is None
            &&& back->Ok_0.pref_source == route.pref_source
        }),
{
    let s1 = seq![NlAttr::Destination(Some(route.destination))];
    let s2 = if route.gateway is Some {
        s1.push(NlAttr::Gateway(Some(route.gateway->0)))
    } else {
        s1
    };
    let s3 = if route.spec_effective_index(ifc) is Some {
        s2.push(NlAttr::Oif(route.spec_effective_index(ifc)->0))
    } else {
        s2
    };
    let s4 = if route.metric is Some {
        s3.push(NlAttr::Priority(route.metric->0))
    } else {
        s3
    };
    let s5 = if route.source is Some {
        s4.push(NlAttr::Source(Some(route.source->0)))
    } else {
        s4
    };
    let s6 = if route.pref_source is Some {
        s5.push(NlAttr::PrefSource(Some(route.pref_source->0)))
    } else {
        s5
    };
    assert(spec_route_attrs(route, ifc) == s6);
    assert(spec_attr_slots(s1) == spec_apply_attr(empty_slots(), s1.last())) by {
        assert(s1.drop_last() =~= Seq::<NlAttr>::empty());
        assert(spec_attr_slots(Seq::<NlAttr>::empty()) == empty_slots());
    }
    if route.gateway is Some {
        lemma_attr_slots_push(s1, NlAttr::Gateway(Some(route.gateway->0)));
    }
    if route.spec_effective_index(ifc) is Some {
        lemma_attr_slots_push(s2, NlAttr::Oif(route.spec_effective_index(ifc)->0));
    }
    if route.metric is Some {
        lemma_attr_slots_push(s3, NlAttr::Priority(route.metric->0));
    }
    if route.source is Some {
        lemma_attr_slots_push(s4, NlAttr::Source(Some(route.source->0)));
    }
    if route.pref_source is Some {
        lemma_attr_slots_push(s5, NlAttr::PrefSource(Some(route.pref_source->0)));
    }
}

} // verus!
