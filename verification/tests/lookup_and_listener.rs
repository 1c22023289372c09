//! Longest-prefix-match lookup, the listener state machine, the native-table
//! row conversions, and the UTF-16 name helpers.

use route_manager::{
    decode_utf16, encode_utf16, route_to_row, row_to_route, IfaceResolution, IpAddress,
    ListenStep, ListenerState, NativeRow, Route, RouteChange, RouteError, RouteManager,
};

fn open_resolution() -> IfaceResolution {
    IfaceResolution::none()
}

#[test]
fn find_route_prefers_the_longest_prefix() {
    let manager = RouteManager::new().unwrap();
    let list = vec![
        Route::new(IpAddress::V4(0x0A000000), 8).with_metric(0),
        Route::new(IpAddress::V4(0x0A010000), 16).with_metric(0),
        Route::new(IpAddress::V4(0x0A010200), 24).with_metric(0),
    ];
    let found = manager
        .find_route(&list, &IpAddress::V4(0x0A010205))
        .unwrap();
    assert_eq!(found.destination(), IpAddress::V4(0x0A010200));
    assert_eq!(found.prefix(), 24);
    // A query outside the /24 but inside the /16 picks the /16.
    let found16 = manager
        .find_route(&list, &IpAddress::V4(0x0A010305))
        .unwrap();
    assert_eq!(found16.prefix(), 16);
}

#[test]
fn find_route_breaks_prefix_ties_by_the_lower_metric() {
    let manager = RouteManager::new().unwrap();
    let list = vec![
        Route::new(IpAddress::V4(0x0A010200), 24)
            .with_metric(5)
            .with_if_index(1),
        Route::new(IpAddress::V4(0x0A010200), 24)
            .with_metric(1)
            .with_if_index(2),
    ];
    let found = manager
        .find_route(&list, &IpAddress::V4(0x0A010205))
        .unwrap();
    assert_eq!(found.metric(), Some(1));
    assert_eq!(found.if_index(), Some(2));
}

#[test]
fn an_absent_metric_is_the_lowest_and_wins_the_tie() {
    let manager = RouteManager::new().unwrap();
    let list = vec![
        Route::new(IpAddress::V4(0x0A010200), 24)
            .with_metric(0)
            .with_if_index(1),
        Route::new(IpAddress::V4(0x0A010200), 24).with_if_index(2),
    ];
    let found = manager
        .find_route(&list, &IpAddress::V4(0x0A010205))
        .unwrap();
    assert_eq!(found.metric(), None);
    assert_eq!(found.if_index(), Some(2));
}

#[test]
fn find_route_ignores_the_other_family_and_non_matches() {
    let manager = RouteManager::new().unwrap();
    let list = vec![
        Route::new(IpAddress::V6(0), 0),
        Route::new(IpAddress::V4(0xC0A80000), 16),
    ];
    // No IPv4 route contains this address.
    assert_eq!(manager.find_route(&list, &IpAddress::V4(0x0A000001)), None);
    // The IPv6 default route answers IPv6 queries only.
    let found = manager.find_route(&list, &IpAddress::V6(0x2001)).unwrap();
    assert_eq!(found.destination(), IpAddress::V6(0));
    assert_eq!(manager.find_route(&Vec::new(), &IpAddress::V4(1)), None);
}

#[test]
fn listener_delivers_in_arrival_order_then_reads_again() {
    let mut state = ListenerState::new();
    assert!(matches!(state.poll(), ListenStep::NeedRead));
    let r1 = Route::new(IpAddress::V4(0x0A000000), 8);
    let r2 = Route::new(IpAddress::V4(0x0A010000), 16);
    state.enqueue_batch(vec![
        RouteChange::Add(r1.clone()),
        RouteChange::Delete(r2.clone()),
    ]);
    assert!(matches!(state.poll(), ListenStep::Deliver(RouteChange::Add(r)) if r == r1));
    assert!(matches!(state.poll(), ListenStep::Deliver(RouteChange::Delete(r)) if r == r2));
    assert!(matches!(state.poll(), ListenStep::NeedRead));
}

#[test]
fn shutdown_mid_listen_interrupts_now_and_later() {
    // A listen call parked on a read consults the state as soon as the wakeup
    // fires: with shutdown requested it sees interrupted, and every
    // subsequent call does as well.
    let mut state = ListenerState::new();
    state.request_shutdown();
    assert!(state.is_shutdown());
    assert!(matches!(state.poll(), ListenStep::Interrupted));
    assert!(matches!(state.poll(), ListenStep::Interrupted));
    // Shutdown is idempotent, and events already decoded are still handed
    // out first.
    let mut state2 = ListenerState::new();
    let r = Route::new(IpAddress::V4(0x0A000000), 8);
    state2.enqueue_batch(vec![RouteChange::Change(r.clone())]);
    state2.request_shutdown();
    state2.request_shutdown();
    assert!(matches!(state2.poll(), ListenStep::Deliver(RouteChange::Change(x)) if x == r));
    assert!(matches!(state2.poll(), ListenStep::Interrupted));
}

#[test]
fn a_route_converts_to_a_row_and_back() {
    let ifc = open_resolution();
    let route = Route::new(IpAddress::V4(0x0A010200), 24)
        .with_gateway(IpAddress::V4(0xC0A80101))
        .with_if_index(7)
        .with_luid(0x0102_0304_0506_0708)
        .with_metric(25);
    let row = route_to_row(&route, &ifc).unwrap();
    assert_eq!(row.dest_family, 2);
    assert_eq!(row.dest_v4, 0x0A010200);
    assert_eq!(row.prefix_len, 24);
    assert_eq!(row.hop_family, 2);
    assert_eq!(row.hop_v4, 0xC0A80101);
    assert_eq!(row.if_index, 7);
    assert_eq!(row.luid, Some(0x0102_0304_0506_0708));
    assert_eq!(row.metric, Some(25));
    let back = row_to_route(&row);
    assert_eq!(back.destination(), route.destination());
    assert_eq!(back.prefix(), route.prefix());
    assert_eq!(back.gateway(), route.gateway());
    assert_eq!(back.if_index(), route.if_index());
    assert_eq!(back.luid(), route.luid());
    assert_eq!(back.metric(), route.metric());
}

#[test]
fn a_gatewayless_route_still_sets_the_next_hop_family() {
    let ifc = open_resolution();
    let route = Route::new(IpAddress::V6(0x2001_0DB8_0000_0000_0000_0000_0000_0000), 32);
    let row = route_to_row(&route, &ifc).unwrap();
    assert_eq!(row.dest_family, 23);
    assert_eq!(row.hop_family, 23);
    assert_eq!(row.hop_v6, 0);
    let back = row_to_route(&row);
    // A next hop equal to the unspecified address of the family is still a
    // hop value in the row; the conversion reads the discriminant alone.
    assert_eq!(back.gateway(), Some(IpAddress::V6(0)));
}

#[test]
fn an_unspecified_hop_family_reads_as_no_gateway() {
    let row = NativeRow {
        dest_family: 2,
        dest_v4: 0x0A000000,
        dest_v6: 0,
        prefix_len: 8,
        hop_family: 0,
        hop_v4: 0,
        hop_v6: 0,
        if_index: 4,
        luid: Some(9),
        metric: Some(3),
    };
    let back = row_to_route(&row);
    assert_eq!(back.gateway(), None);
    assert_eq!(back.if_index(), Some(4));
}

#[test]
fn row_conversion_rejects_an_invalid_route() {
    let ifc = open_resolution();
    let bad = Route::new(IpAddress::V4(0), 64);
    assert_eq!(route_to_row(&bad, &ifc), Err(RouteError::InvalidPrefix));
}

#[test]
fn utf16_names_round_trip() {
    let units = encode_utf16("eth0");
    assert_eq!(units, vec![0x65, 0x74, 0x68, 0x30, 0]);
    // The decoder stops at the first zero, as the platform's fixed buffers
    // require.
    let mut buffer = units.clone();
    buffer.extend_from_slice(&[0x41, 0x42]);
    assert_eq!(decode_utf16(&buffer), String::from("eth0"));
    assert_eq!(decode_utf16(&[]), String::new());
    assert_eq!(decode_utf16(&[0x68, 0x69]), String::from("hi"));
}
