//! The netlink translation engine, exercised through the real netlink
//! crates: request framing, response decoding with its termination and
//! status semantics, and the dual-family list policy.

use route_manager::{
    build_list_request, build_route_request, convert_add_route, decode_response,
    merge_family_lists, IfaceResolution, IpAddress, NlReqKind, Route, RouteChange, RouteError,
};

fn open_resolution() -> IfaceResolution {
    IfaceResolution::none()
}

#[test]
fn request_round_trips_through_the_wire_format() {
    // An add request is itself a framed route message; parsing the emitted
    // bytes must give back every field the wire format carries.
    let route = Route::new(IpAddress::V4(0x0A010200), 24)
        .with_gateway(IpAddress::V4(0xC0A80101))
        .with_if_index(7)
        .with_metric(100)
        .with_table(254);
    let ifc = open_resolution();
    let bytes = build_route_request(NlReqKind::Add, &route, &ifc).unwrap();
    let mut events: Vec<RouteChange> = Vec::new();
    let stop = decode_response(&bytes, &mut events).unwrap();
    assert!(!stop);
    assert_eq!(events.len(), 1);
    match &events[0] {
        RouteChange::Add(back) => {
            assert_eq!(back.destination(), IpAddress::V4(0x0A010200));
            assert_eq!(back.prefix(), 24);
            assert_eq!(back.gateway(), Some(IpAddress::V4(0xC0A80101)));
            assert_eq!(back.if_index(), Some(7));
            assert_eq!(back.metric(), Some(100));
            assert_eq!(back.table(), 254);
        }
        other => panic!("expected an add event, got {:?}", other),
    }
}

#[test]
fn request_round_trips_v6_with_source_fields() {
    let route = Route::new(IpAddress::V6(0x2001_0DB8_0000_0000_0000_0000_0000_0000), 32)
        .with_gateway(IpAddress::V6(0xFE80_0000_0000_0000_0000_0000_0000_0001))
        .with_source(IpAddress::V6(0x2001_0DB8_0000_0000_0000_0000_0000_0001), 128)
        .with_pref_source(IpAddress::V6(0x2001_0DB8_0000_0000_0000_0000_0000_0002));
    let ifc = open_resolution();
    let bytes = build_route_request(NlReqKind::Delete, &route, &ifc).unwrap();
    let mut events: Vec<RouteChange> = Vec::new();
    decode_response(&bytes, &mut events).unwrap();
    assert_eq!(events.len(), 1);
    match &events[0] {
        RouteChange::Delete(back) => {
            assert_eq!(
                back.destination(),
                IpAddress::V6(0x2001_0DB8_0000_0000_0000_0000_0000_0000)
            );
            assert_eq!(back.prefix(), 32);
            assert_eq!(
                back.gateway(),
                Some(IpAddress::V6(0xFE80_0000_0000_0000_0000_0000_0000_0001))
            );
            assert_eq!(
                back.source(),
                Some(IpAddress::V6(0x2001_0DB8_0000_0000_0000_0000_0000_0001))
            );
            assert_eq!(back.source_prefix(), 128);
            assert_eq!(
                back.pref_source(),
                Some(IpAddress::V6(0x2001_0DB8_0000_0000_0000_0000_0000_0002))
            );
        }
        other => panic!("expected a delete event, got {:?}", other),
    }
}

#[test]
fn request_rejects_an_invalid_route_before_framing() {
    let ifc = open_resolution();
    let bad = Route::new(IpAddress::V4(0x0A010200), 33);
    assert_eq!(
        build_route_request(NlReqKind::Add, &bad, &ifc),
        Err(RouteError::InvalidPrefix)
    );
}

#[test]
fn list_request_is_framed() {
    // The dump request for each family is one netlink message: its header is
    // sixteen bytes and announces the whole length.
    let v4 = build_list_request(true);
    let v6 = build_list_request(false);
    assert!(v4.len() >= 16);
    assert_eq!(v4.len(), u32::from_le_bytes([v4[0], v4[1], v4[2], v4[3]]) as usize);
    assert!(v6.len() >= 16);
    assert_ne!(v4, v6);
}

fn netlink_status_message(code: i32) -> Vec<u8> {
    // A NLMSG_ERROR message: 16-byte header, then the 4-byte code.
    let mut b: Vec<u8> = Vec::new();
    b.extend_from_slice(&20u32.to_le_bytes());
    b.extend_from_slice(&2u16.to_le_bytes()); // message type: error/status
    b.extend_from_slice(&0u16.to_le_bytes()); // flags
    b.extend_from_slice(&0u32.to_le_bytes()); // sequence
    b.extend_from_slice(&0u32.to_le_bytes()); // port
    b.extend_from_slice(&code.to_le_bytes());
    b
}

#[test]
fn a_status_with_a_code_fails_the_call_with_that_code() {
    let bytes = netlink_status_message(-17);
    let mut events: Vec<RouteChange> = Vec::new();
    assert_eq!(decode_response(&bytes, &mut events), Err(RouteError::Os(-17)));
    assert!(events.is_empty());
}

#[test]
fn a_status_without_a_code_terminates_the_read_loop() {
    let bytes = netlink_status_message(0);
    let mut events: Vec<RouteChange> = Vec::new();
    assert_eq!(decode_response(&bytes, &mut events), Ok(true));
    assert!(events.is_empty());
}

#[test]
fn a_done_message_terminates_the_read_loop() {
    let mut b: Vec<u8> = Vec::new();
    b.extend_from_slice(&20u32.to_le_bytes());
    b.extend_from_slice(&3u16.to_le_bytes()); // message type: dump terminator
    b.extend_from_slice(&0u16.to_le_bytes());
    b.extend_from_slice(&0u32.to_le_bytes());
    b.extend_from_slice(&0u32.to_le_bytes());
    b.extend_from_slice(&0u32.to_le_bytes()); // terminator status
    let mut events: Vec<RouteChange> = Vec::new();
    assert_eq!(decode_response(&b, &mut events), Ok(true));
    assert!(events.is_empty());
}

#[test]
fn a_batch_may_hold_several_messages_in_order() {
    let r1 = Route::new(IpAddress::V4(0x0A000000), 8);
    let r2 = Route::new(IpAddress::V4(0x0A010000), 16);
    let ifc = open_resolution();
    let mut b = build_route_request(NlReqKind::Add, &r1, &ifc).unwrap();
    b.extend_from_slice(&build_route_request(NlReqKind::Delete, &r2, &ifc).unwrap());
    let mut events: Vec<RouteChange> = Vec::new();
    assert_eq!(decode_response(&b, &mut events), Ok(false));
    assert_eq!(events.len(), 2);
    assert!(matches!(&events[0], RouteChange::Add(r) if r.prefix() == 8));
    assert!(matches!(&events[1], RouteChange::Delete(r) if r.prefix() == 16));
}

#[test]
fn truncated_bytes_are_a_decode_failure() {
    let bytes = vec![20u8, 0, 0];
    let mut events: Vec<RouteChange> = Vec::new();
    assert_eq!(decode_response(&bytes, &mut events), Err(RouteError::Decode));
}

#[test]
fn convert_add_route_keeps_only_the_dump_answers() {
    let r1 = Route::new(IpAddress::V4(0x0A000000), 8);
    let r2 = Route::new(IpAddress::V4(0x0A010000), 16);
    let list = vec![
        RouteChange::Add(r1.clone()),
        RouteChange::Delete(r2.clone()),
        RouteChange::Add(r2.clone()),
    ];
    let routes = convert_add_route(&list);
    assert_eq!(routes, vec![r1, r2]);
}

#[test]
fn dual_family_partial_failure_keeps_the_healthy_family() {
    let a = Route::new(IpAddress::V4(0x0A000000), 8);
    let b = Route::new(IpAddress::V4(0x0A010000), 16);
    // The IPv6 query fails, the IPv4 query answers two routes: the two routes
    // come back and the call succeeds.
    let merged = merge_family_lists(
        Ok(vec![a.clone(), b.clone()]),
        Err(RouteError::Os(-13)),
    );
    assert_eq!(merged, Ok(vec![a.clone(), b.clone()]));
    // The other way round as well.
    let merged2 = merge_family_lists(Err(RouteError::Os(-13)), Ok(vec![b.clone()]));
    assert_eq!(merged2, Ok(vec![b.clone()]));
    // Both healthy: the union, first family first.
    let merged3 = merge_family_lists(Ok(vec![a.clone()]), Ok(vec![b.clone()]));
    assert_eq!(merged3, Ok(vec![a.clone(), b.clone()]));
}

#[test]
fn dual_family_double_failure_returns_the_first_error() {
    let merged = merge_family_lists(
        Err::<Vec<Route>, _>(RouteError::Os(-13)),
        Err(RouteError::Os(-99)),
    );
    assert_eq!(merged, Err(RouteError::Os(-13)));
}

#[test]
fn a_route_message_of_another_family_without_a_destination_is_rejected() {
    // A route message whose header names neither IP family and which carries
    // no destination attribute cannot synthesize an unspecified destination.
    let mut b: Vec<u8> = Vec::new();
    b.extend_from_slice(&28u32.to_le_bytes());
    b.extend_from_slice(&24u16.to_le_bytes()); // message type: new route
    b.extend_from_slice(&0u16.to_le_bytes());
    b.extend_from_slice(&0u32.to_le_bytes());
    b.extend_from_slice(&0u32.to_le_bytes());
    b.extend_from_slice(&[99, 0, 0, 0, 0, 0, 0, 1]); // family 99, unicast
    b.extend_from_slice(&0u32.to_le_bytes()); // header flags, no attributes
    let mut events: Vec<RouteChange> = Vec::new();
    assert_eq!(
        decode_response(&b, &mut events),
        Err(RouteError::InvalidDestinationFamily)
    );
}
