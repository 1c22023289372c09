//! The route model: masks, networks, containment, validation and equality.

use route_manager::{IfaceResolution, IpAddress, Route, RouteError};

fn open_resolution() -> IfaceResolution {
    IfaceResolution::none()
}

#[test]
fn network_and_mask_v4() {
    // 192.168.2.10/24: the network zeroes exactly the low eight bits.
    let route = Route::new(IpAddress::V4(0xC0A8020A), 24);
    assert_eq!(route.network(), IpAddress::V4(0xC0A80200));
    assert_eq!(route.mask(), IpAddress::V4(0xFFFFFF00));
}

#[test]
fn network_and_mask_v4_zero_prefix() {
    let route = Route::new(IpAddress::V4(0xC0A8020A), 0);
    assert_eq!(route.network(), IpAddress::V4(0));
    assert_eq!(route.mask(), IpAddress::V4(0));
}

#[test]
fn network_and_mask_v6() {
    let dest = IpAddress::V6(0xFE80_0000_0000_0000_0123_4567_89AB_CDEF);
    let route = Route::new(dest, 64);
    assert_eq!(
        route.network(),
        IpAddress::V6(0xFE80_0000_0000_0000_0000_0000_0000_0000)
    );
    assert_eq!(
        route.mask(),
        IpAddress::V6(0xFFFF_FFFF_FFFF_FFFF_0000_0000_0000_0000)
    );
    let full = Route::new(dest, 128);
    assert_eq!(full.network(), dest);
}

#[test]
fn contains_own_network_and_rejects_others() {
    let route = Route::new(IpAddress::V4(0xC0A80200), 24);
    // Reflexive for the route's own network.
    assert!(route.contains(&IpAddress::V4(0xC0A80200)));
    // Any host within the masked-off low bits is contained.
    assert!(route.contains(&IpAddress::V4(0xC0A802FF)));
    // An address differing within the masked (high) bits is not.
    assert!(!route.contains(&IpAddress::V4(0xC0A80300)));
    // A different family is never contained.
    assert!(!route.contains(&IpAddress::V6(1)));
}

#[test]
fn check_rejects_invalid_prefix() {
    let ifc = open_resolution();
    let route = Route::new(IpAddress::V4(0xC0A80200), 33);
    assert_eq!(route.check(&ifc), Err(RouteError::InvalidPrefix));
    let route6 = Route::new(IpAddress::V6(1), 129);
    assert_eq!(route6.check(&ifc), Err(RouteError::InvalidPrefix));
    let fine = Route::new(IpAddress::V4(0xC0A80200), 32);
    assert_eq!(fine.check(&ifc), Ok(()));
}

#[test]
fn check_rejects_gateway_family_mismatch() {
    let ifc = open_resolution();
    let route = Route::new(IpAddress::V4(0xC0A80200), 24).with_gateway(IpAddress::V6(1));
    assert_eq!(route.check(&ifc), Err(RouteError::GatewayFamilyMismatch));
    let fine = Route::new(IpAddress::V4(0xC0A80200), 24).with_gateway(IpAddress::V4(0xC0A80101));
    assert_eq!(fine.check(&ifc), Ok(()));
}

#[test]
fn check_cross_checks_interface_references() {
    // An index the OS does not know fails validation.
    let route = Route::new(IpAddress::V4(0xC0A80200), 24).with_if_index(9);
    let ifc = IfaceResolution {
        index_resolves: false,
        index_of_name: None,
    };
    assert_eq!(route.check(&ifc), Err(RouteError::UnresolvedInterface));
    // A name the OS cannot resolve fails validation.
    let named = Route::new(IpAddress::V4(0xC0A80200), 24).with_if_name(String::from("eth0"));
    let ifc2 = IfaceResolution {
        index_resolves: true,
        index_of_name: None,
    };
    assert_eq!(named.check(&ifc2), Err(RouteError::UnresolvedInterface));
    // A name resolving to another index than the one given is inconsistent.
    let both = Route::new(IpAddress::V4(0xC0A80200), 24)
        .with_if_name(String::from("eth0"))
        .with_if_index(2);
    let ifc3 = IfaceResolution {
        index_resolves: true,
        index_of_name: Some(3),
    };
    assert_eq!(both.check(&ifc3), Err(RouteError::IfIndexMismatch));
    // The same index on both sides is consistent.
    let ifc4 = IfaceResolution {
        index_resolves: true,
        index_of_name: Some(2),
    };
    assert_eq!(both.check(&ifc4), Ok(()));
}

#[test]
fn builders_set_each_field() {
    let route = Route::new(IpAddress::V4(0x0A000000), 8)
        .with_gateway(IpAddress::V4(0xC0A80101))
        .with_if_name(String::from("eth1"))
        .with_if_index(4)
        .with_table(254)
        .with_source(IpAddress::V4(0x0A000001), 32)
        .with_pref_source(IpAddress::V4(0x0A000002))
        .with_metric(600)
        .with_luid(0x1234_5678_9ABC_DEF0);
    assert_eq!(route.destination(), IpAddress::V4(0x0A000000));
    assert_eq!(route.prefix(), 8);
    assert_eq!(route.gateway(), Some(IpAddress::V4(0xC0A80101)));
    assert_eq!(route.if_name(), Some(&String::from("eth1")));
    assert_eq!(route.if_index(), Some(4));
    assert_eq!(route.table(), 254);
    assert_eq!(route.source(), Some(IpAddress::V4(0x0A000001)));
    assert_eq!(route.source_prefix(), 32);
    assert_eq!(route.pref_source(), Some(IpAddress::V4(0x0A000002)));
    assert_eq!(route.metric(), Some(600));
    assert_eq!(route.luid(), Some(0x1234_5678_9ABC_DEF0));
}

#[test]
fn route_equality_and_clone() {
    let a = Route::new(IpAddress::V4(0x0A000000), 8).with_if_name(String::from("eth0"));
    let b = a.clone();
    assert_eq!(a, b);
    let c = Route::new(IpAddress::V4(0x0A000000), 8).with_if_name(String::from("eth1"));
    assert_ne!(a, c);
    let d = Route::new(IpAddress::V4(0x0A000000), 9).with_if_name(String::from("eth0"));
    assert_ne!(a, d);
}
