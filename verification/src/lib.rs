//! A cross-platform kernel routing-table manager: a platform-neutral route
//! model together with the wire-protocol translation engines for the three
//! native routing subsystems (netlink messages, BSD routing-socket messages,
//! and a fixed-layout forwarding-table row), plus the listener state machine
//! that turns decoded change notifications into a FIFO of events.

pub mod addr;
pub mod listener;
pub mod lookup;
pub mod manager;
pub mod netlink;
pub mod route;
pub mod rtsock;
pub mod table;

pub use addr::IpAddress;
pub use listener::{ListenStep, ListenerState};
pub use manager::{AsyncRouteManager, RouteManager};
pub use netlink::{
    build_list_request, build_route_request, convert_add_route, decode_response,
    merge_family_lists, NlReqKind,
};
pub use route::{IfaceResolution, Route, RouteChange, RouteError};
pub use rtsock::{
    decode_rt_changes, decode_rt_dump, decode_rt_reply, encode_rt_request, sa_size, strip_v6_scope,
    RtLayout, RTM_ADD, RTM_CHANGE, RTM_DELETE, RTM_GET,
};
pub use table::{decode_utf16, encode_utf16, route_to_row, row_to_route, NativeRow};
