//! The routing-socket translation engine: alignment, synthetic dumps, the
//! scope-id quirk, the flag and error-number filters, and the encoder.

use route_manager::{
    decode_rt_changes, decode_rt_dump, decode_rt_reply, encode_rt_request, sa_size,
    strip_v6_scope, IfaceResolution, IpAddress, Route, RouteChange, RouteError, RtLayout, RTM_ADD,
    RTM_DELETE, RTM_GET,
};

fn open_resolution() -> IfaceResolution {
    IfaceResolution::none()
}

/// A word-rounding layout with a compact 24-byte header.
fn word_layout() -> RtLayout {
    RtLayout {
        hdr_len: 24,
        off_msglen: 0,
        off_version: 2,
        off_type: 3,
        off_index: 4,
        off_flags: 8,
        off_addrs: 12,
        off_seq: 16,
        off_errno: 20,
        off_hdrlen: None,
        parse_word: 8,
        encode_word: 8,
        version: 5,
        required_flags: 0,
        excluded_flags_pre: 0,
        excluded_flags_post: 0,
        af_inet6: 30,
        sdl_len: 20,
    }
}

#[test]
fn alignment_rounds_to_the_word() {
    // A sockaddr of length 7 on an 8-byte-word platform: the next slot starts
    // 8 bytes later; a zero-length sockaddr takes exactly one word.
    assert_eq!(sa_size(8, 7), 8);
    assert_eq!(sa_size(8, 0), 8);
    assert_eq!(sa_size(8, 8), 8);
    assert_eq!(sa_size(8, 9), 16);
    assert_eq!(sa_size(8, 16), 16);
    assert_eq!(sa_size(8, 28), 32);
    // The exact-length platform keeps nonzero lengths as they are.
    assert_eq!(sa_size(1, 7), 7);
    assert_eq!(sa_size(4, 7), 8);
    assert_eq!(sa_size(4, 28), 28);
}

#[test]
fn scope_id_is_stripped_from_link_local_gateways() {
    // Unicast link-local with scope bytes embedded in the second segment.
    let embedded = 0xFE80_00AB_0000_0000_0000_0000_0000_0001u128;
    assert_eq!(
        strip_v6_scope(embedded),
        0xFE80_0000_0000_0000_0000_0000_0000_0001
    );
    // Multicast with link-local scope.
    let mcast = 0xFF02_00AB_0000_0000_0000_0000_0000_0001u128;
    assert_eq!(
        strip_v6_scope(mcast),
        0xFF02_0000_0000_0000_0000_0000_0000_0001
    );
    // A global address keeps its second segment.
    let global = 0x2001_0DB8_0000_0000_0000_0000_0000_0001u128;
    assert_eq!(strip_v6_scope(global), global);
}

fn sa4(addr: [u8; 4]) -> Vec<u8> {
    let mut s = vec![16u8, 2, 0, 0];
    s.extend_from_slice(&addr);
    s.extend_from_slice(&[0u8; 8]);
    s
}

fn header(lay: &RtLayout, msglen: u16, rtm_type: u8, index: u16, addrs: u32, errno: i32) -> Vec<u8> {
    let mut h = vec![0u8; lay.hdr_len];
    h[lay.off_msglen..lay.off_msglen + 2].copy_from_slice(&msglen.to_le_bytes());
    h[lay.off_version] = lay.version;
    h[lay.off_type] = rtm_type;
    h[lay.off_index..lay.off_index + 2].copy_from_slice(&index.to_le_bytes());
    h[lay.off_addrs..lay.off_addrs + 4].copy_from_slice(&addrs.to_le_bytes());
    h[lay.off_errno..lay.off_errno + 4].copy_from_slice(&errno.to_le_bytes());
    h
}

#[test]
fn a_synthetic_dump_row_decodes_to_its_route() {
    let lay = word_layout();
    // Destination 10.1.2.0 and a 255.255.255.0 netmask, no gateway.
    let mut msg = header(&lay, 24 + 32, RTM_GET, 3, 1 | 4, 0);
    msg.extend_from_slice(&sa4([10, 1, 2, 0]));
    msg.extend_from_slice(&sa4([255, 255, 255, 0]));
    let routes = decode_rt_dump(&msg, &lay).unwrap();
    assert_eq!(routes.len(), 1);
    assert_eq!(routes[0].destination(), IpAddress::V4(0x0A010200));
    assert_eq!(routes[0].prefix(), 24);
    assert_eq!(routes[0].gateway(), None);
    assert_eq!(routes[0].if_index(), Some(3));
}

#[test]
fn a_zero_length_netmask_slot_encodes_prefix_zero() {
    let lay = word_layout();
    // The netmask slot announces length zero: prefix 0.
    let mut msg = header(&lay, 24 + 16 + 16, RTM_GET, 1, 1 | 4, 0);
    msg.extend_from_slice(&sa4([0, 0, 0, 0]));
    msg.extend_from_slice(&[0u8; 16]);
    let routes = decode_rt_dump(&msg, &lay).unwrap();
    assert_eq!(routes.len(), 1);
    assert_eq!(routes[0].prefix(), 0);
}

#[test]
fn a_row_without_a_netmask_keeps_the_full_width() {
    let lay = word_layout();
    let mut msg = header(&lay, 24 + 16, RTM_GET, 1, 1, 0);
    msg.extend_from_slice(&sa4([10, 0, 0, 1]));
    let routes = decode_rt_dump(&msg, &lay).unwrap();
    assert_eq!(routes.len(), 1);
    assert_eq!(routes[0].prefix(), 32);
}

#[test]
fn a_link_local_gateway_decodes_with_its_scope_stripped() {
    let lay = word_layout();
    // Destination and gateway are IPv6; the gateway's second segment carries
    // an embedded scope id that must come back zeroed.
    let dst: u128 = 0xFE80_0000_0000_0000_0000_0000_0000_0000;
    let gw: u128 = 0xFE80_00AB_0000_0000_0000_0000_0000_0001;
    let mut sa6_dst = vec![28u8, lay.af_inet6, 0, 0, 0, 0, 0, 0];
    sa6_dst.extend_from_slice(&dst.to_be_bytes());
    sa6_dst.extend_from_slice(&[0u8; 4]);
    sa6_dst.extend_from_slice(&[0u8; 4]); // pad to the 32-byte rounded slot
    let mut sa6_gw = vec![28u8, lay.af_inet6, 0, 0, 0, 0, 0, 0];
    sa6_gw.extend_from_slice(&gw.to_be_bytes());
    sa6_gw.extend_from_slice(&[0u8; 4]);
    sa6_gw.extend_from_slice(&[0u8; 4]);
    let mut msg = header(&lay, 24 + 32 + 32, RTM_GET, 2, 1 | 2, 0);
    msg.extend_from_slice(&sa6_dst);
    msg.extend_from_slice(&sa6_gw);
    let routes = decode_rt_dump(&msg, &lay).unwrap();
    assert_eq!(routes.len(), 1);
    assert_eq!(routes[0].destination(), IpAddress::V6(dst));
    assert_eq!(
        routes[0].gateway(),
        Some(IpAddress::V6(0xFE80_0000_0000_0000_0000_0000_0000_0001))
    );
}

#[test]
fn rows_with_the_wrong_version_or_filtered_flags_are_skipped() {
    let mut lay = word_layout();
    lay.required_flags = 0x800;
    lay.excluded_flags_pre = 0x200000;
    // Wrong version.
    let mut m1 = header(&lay, 24 + 16, RTM_GET, 1, 1, 0);
    m1[lay.off_version] = lay.version + 1;
    m1.extend_from_slice(&sa4([10, 0, 0, 1]));
    // Lacks the required flag.
    let mut m2 = header(&lay, 24 + 16, RTM_GET, 1, 1, 0);
    m2.extend_from_slice(&sa4([10, 0, 0, 2]));
    // Carries an excluded flag.
    let mut m3 = header(&lay, 24 + 16, RTM_GET, 1, 1, 0);
    m3[lay.off_flags..lay.off_flags + 4].copy_from_slice(&0x200800u32.to_le_bytes());
    m3.extend_from_slice(&sa4([10, 0, 0, 3]));
    // Passes the filters.
    let mut m4 = header(&lay, 24 + 16, RTM_GET, 1, 1, 0);
    m4[lay.off_flags..lay.off_flags + 4].copy_from_slice(&0x800u32.to_le_bytes());
    m4.extend_from_slice(&sa4([10, 0, 0, 4]));
    let mut buf = m1;
    buf.extend_from_slice(&m2);
    buf.extend_from_slice(&m3);
    buf.extend_from_slice(&m4);
    let routes = decode_rt_dump(&buf, &lay).unwrap();
    assert_eq!(routes.len(), 1);
    assert_eq!(routes[0].destination(), IpAddress::V4(0x0A000004));
}

#[test]
fn an_error_number_is_excluded_during_a_dump_but_fails_a_reply() {
    let lay = word_layout();
    let mut bad = header(&lay, 24 + 16, RTM_GET, 1, 1, 17);
    bad.extend_from_slice(&sa4([10, 0, 0, 1]));
    // During a dump the row is simply excluded.
    assert_eq!(decode_rt_dump(&bad, &lay), Ok(vec![]));
    // In a reply it surfaces as the call's error.
    assert_eq!(decode_rt_reply(&bad, &lay), Err(RouteError::Os(17)));
    let fine = header(&lay, 24, RTM_ADD, 0, 0, 0);
    assert_eq!(decode_rt_reply(&fine, &lay), Ok(()));
}

#[test]
fn an_encoded_add_request_decodes_back_to_its_route() {
    let lay = word_layout();
    let route = Route::new(IpAddress::V4(0x0A000000), 8).with_gateway(IpAddress::V4(0xC0A80101));
    let ifc = open_resolution();
    let bytes = encode_rt_request(&route, &ifc, RTM_ADD, &lay).unwrap();
    // The header announces the whole message.
    assert_eq!(
        u16::from_le_bytes([bytes[0], bytes[1]]) as usize,
        bytes.len()
    );
    let mut events: Vec<RouteChange> = Vec::new();
    decode_rt_changes(&bytes, &lay, &mut events).unwrap();
    assert_eq!(events.len(), 1);
    match &events[0] {
        RouteChange::Add(back) => {
            assert_eq!(back.destination(), IpAddress::V4(0x0A000000));
            assert_eq!(back.prefix(), 8);
            assert_eq!(back.gateway(), Some(IpAddress::V4(0xC0A80101)));
        }
        other => panic!("expected an add event, got {:?}", other),
    }
}

#[test]
fn an_encoded_delete_request_decodes_back_to_its_route() {
    let lay = word_layout();
    let route = Route::new(IpAddress::V4(0x0A010200), 24).with_if_index(6);
    let ifc = open_resolution();
    let bytes = encode_rt_request(&route, &ifc, RTM_DELETE, &lay).unwrap();
    let mut events: Vec<RouteChange> = Vec::new();
    decode_rt_changes(&bytes, &lay, &mut events).unwrap();
    assert_eq!(events.len(), 1);
    match &events[0] {
        RouteChange::Delete(back) => {
            assert_eq!(back.destination(), IpAddress::V4(0x0A010200));
            assert_eq!(back.prefix(), 24);
            assert_eq!(back.gateway(), None);
        }
        other => panic!("expected a delete event, got {:?}", other),
    }
}

#[test]
fn an_add_without_a_gateway_places_the_interface_in_the_gateway_slot() {
    let lay = word_layout();
    let route = Route::new(IpAddress::V4(0x0A010200), 24).with_if_index(6);
    let ifc = open_resolution();
    let bytes = encode_rt_request(&route, &ifc, RTM_ADD, &lay).unwrap();
    // Slots: destination (16), link-layer (24 rounded), netmask (16),
    // and the interface slot again after the netmask, as the reference
    // implementation lays an add out.
    assert_eq!(bytes.len(), 24 + 16 + 24 + 16 + 24);
    // The gateway-position slot is the link-layer sockaddr: its family byte
    // names the link family, so the decoded gateway is absent.
    let gw_slot = 24 + 16;
    assert_eq!(bytes[gw_slot], 20); // announced sockaddr_dl length
    assert_eq!(bytes[gw_slot + 1], 18); // link-layer family
    assert_eq!(
        u16::from_le_bytes([bytes[gw_slot + 2], bytes[gw_slot + 3]]),
        6
    );
    let mut events: Vec<RouteChange> = Vec::new();
    decode_rt_changes(&bytes, &lay, &mut events).unwrap();
    assert_eq!(events.len(), 1);
    assert!(matches!(&events[0], RouteChange::Add(r) if r.gateway().is_none() && r.prefix() == 24));
}

#[test]
fn the_encoder_rejects_an_invalid_route() {
    let lay = word_layout();
    let ifc = open_resolution();
    let bad = Route::new(IpAddress::V4(0), 40);
    assert_eq!(
        encode_rt_request(&bad, &ifc, RTM_ADD, &lay),
        Err(RouteError::InvalidPrefix)
    );
}

#[test]
fn malformed_framing_is_a_decode_failure() {
    let lay = word_layout();
    // A message length shorter than the header.
    let mut h = header(&lay, 8, RTM_GET, 1, 1, 0);
    h.truncate(24);
    assert_eq!(decode_rt_dump(&h, &lay), Err(RouteError::Decode));
    // A message length running past the buffer.
    let h2 = header(&lay, 200, RTM_GET, 1, 1, 0);
    assert_eq!(decode_rt_dump(&h2, &lay), Err(RouteError::Decode));
    // A zero message length ends the walk without error.
    let h3 = header(&lay, 0, RTM_GET, 1, 1, 0);
    assert_eq!(decode_rt_dump(&h3, &lay), Ok(vec![]));
}
