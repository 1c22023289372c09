//! The platform-neutral route model: `Route`, the change-event envelope
//! `RouteChange`, the error kinds, validation, and the derived address
//! operations (`network`, `mask`, `contains`).

use crate::addr::{
    bit_v4, bit_v6, compute_mask_v4, compute_mask_v6, compute_network, lemma_network_v4_bits,
    lemma_network_v4_idempotent, lemma_network_v6_bits, lemma_network_v6_idempotent, mask_v4,
    mask_v6, network_of, IpAddress,
};
use vstd::prelude::*;

verus! {

/// The error kinds of this library. Validation errors come before any
/// transport work; `Os` carries a code handed back by the kernel or the
/// platform call; `Decode` is a malformed binary message; `Interrupted`
/// is the normal answer to a listener that was shut down.
#[derive(Clone, Copy, PartialEq, Eq, Structural, Debug)]
pub enum RouteError {
    InvalidPrefix,
    GatewayFamilyMismatch,
    UnresolvedInterface,
    IfIndexMismatch,
    InvalidDestinationFamily,
    Decode,
    Os(i32),
    Interrupted,
}

/// A forwarding-table entry. `destination`/`prefix` name the network,
/// `gateway` the optional next hop (same family as the destination when
/// valid), and the interface may be referenced by index and/or name.
/// `table`, `source`/`source_prefix` and `pref_source` are netlink-only
/// extensions; `metric` is the optional priority; `luid` is the 64-bit
/// interface identifier of the native-table platform.
#[derive(Debug)]
pub struct Route {
    pub destination: IpAddress,
    pub prefix: u8,
    pub gateway: Option<IpAddress>,
    pub if_name: Option<String>,
    pub if_index: Option<u32>,
    pub table: u8,
    pub source: Option<IpAddress>,
    pub source_prefix: u8,
    pub pref_source: Option<IpAddress>,
    pub metric: Option<u32>,
    pub luid: Option<u64>,
}

/// The unit emitted by a listener: a route was added, deleted or changed.
#[derive(Debug)]
pub enum RouteChange {
    Add(Route),
    Delete(Route),
    Change(Route),
}

impl RouteChange {
    /// The route carried by the event.
    pub fn route(&self) -> (r: &Route)
        ensures
            *r == self.spec_route(),
    {
        match self {
            RouteChange::Add(r) => r,
            RouteChange::Delete(r) => r,
            RouteChange::Change(r) => r,
        }
    }

    pub open spec fn spec_route(self) -> Route {
        match self {
            RouteChange::Add(r) => r,
            RouteChange::Delete(r) => r,
            RouteChange::Change(r) => r,
        }
    }
}

impl Route {
    /// A route to `destination/prefix` with every optional field absent and
    /// the table id zero.
    pub fn new(destination: IpAddress, prefix: u8) -> (r: Self)
        ensures
            r == (Route {
                destination,
                prefix,
                gateway: None,
                if_name: None,
                if_index: None,
                table: 0,
                source: None,
                source_prefix: 0,
                pref_source: None,
                metric: None,
                luid: None,
            }),
    {
        Route {
            destination,
            prefix,
            gateway: None,
            if_name: None,
            if_index: None,
            table: 0,
            source: None,
            source_prefix: 0,
            pref_source: None,
            metric: None,
            luid: None,
        }
    }

    /// Sets the gateway (next hop) for the route.
    pub fn with_gateway(self, gateway: IpAddress) -> (r: Self)
        ensures
            r == (Route { gateway: Some(gateway), ..self }),
    {
        Route { gateway: Some(gateway), ..self }
    }

    /// Sets the network interface by name.
    pub fn with_if_name(self, if_name: String) -> (r: Self)
        ensures
            r == (Route { if_name: Some(if_name), ..self }),
    {
        Route { if_name: Some(if_name), ..self }
    }

    /// Sets the network interface by index.
    pub fn with_if_index(self, if_index: u32) -> (r: Self)
        ensures
            r == (Route { if_index: Some(if_index), ..self }),
    {
        Route { if_index: Some(if_index), ..self }
    }

    /// Sets the routing table id (netlink subsystem only).
    pub fn with_table(self, table: u8) -> (r: Self)
        ensures
            r == (Route { table, ..self }),
    {
        Route { table, ..self }
    }

    /// Sets the source address and prefix (netlink subsystem only).
    pub fn with_source(self, source: IpAddress, prefix: u8) -> (r: Self)
        ensures
            r == (Route { source: Some(source), source_prefix: prefix, ..self }),
    {
        Route { source: Some(source), source_prefix: prefix, ..self }
    }

    /// Sets the preferred source address (netlink subsystem only).
    pub fn with_pref_source(self, pref_source: IpAddress) -> (r: Self)
        ensures
            r == (Route { pref_source: Some(pref_source), ..self }),
    {
        Route { pref_source: Some(pref_source), ..self }
    }

    /// Sets the route metric (priority).
    pub fn with_metric(self, metric: u32) -> (r: Self)
        ensures
            r == (Route { metric: Some(metric), ..self }),
    {
        Route { metric: Some(metric), ..self }
    }

    /// Sets the 64-bit interface identifier (native-table subsystem only).
    pub fn with_luid(self, luid: u64) -> (r: Self)
        ensures
            r == (Route { luid: Some(luid), ..self }),
    {
        Route { luid: Some(luid), ..self }
    }
}

impl Route {
    pub fn destination(&self) -> (r: IpAddress)
        ensures
            r == self.destination,
    {
        self.destination
    }

    pub fn prefix(&self) -> (r: u8)
        ensures
            r == self.prefix,
    {
        self.prefix
    }

    pub fn gateway(&self) -> (r: Option<IpAddress>)
        ensures
            r == self.gateway,
    {
        self.gateway
    }

    pub fn if_name(&self) -> (r: Option<&String>)
        ensures
            match r {
                Some(s) => self.if_name == Some(*s),
                None => self.if_name is None,
            },
    {
        self.if_name.as_ref()
    }

    pub fn if_index(&self) -> (r: Option<u32>)
        ensures
            r == self.if_index,
    {
        self.if_index
    }

    pub fn table(&self) -> (r: u8)
        ensures
            r == self.table,
    {
        self.table
    }

    pub fn source(&self) -> (r: Option<IpAddress>)
        ensures
            r == self.source,
    {
        self.source
    }

    pub fn source_prefix(&self) -> (r: u8)
        ensures
            r == self.source_prefix,
    {
        self.source_prefix
    }

    pub fn pref_source(&self) -> (r: Option<IpAddress>)
        ensures
            r == self.pref_source,
    {
        self.pref_source
    }

    pub fn metric(&self) -> (r: Option<u32>)
        ensures
            r == self.metric,
    {
        self.metric
    }

    pub fn luid(&self) -> (r: Option<u64>)
        ensures
            r == self.luid,
    {
        self.luid
    }
}

/// What the OS interface-name service answered for one route's interface
/// references. `index_resolves` says whether the route's `if_index` (when
/// present) names a known interface; `index_of_name` is the index the OS gave
/// for the route's `if_name` (`None` when that lookup failed or no name is
/// set). The lookups themselves are platform calls and live outside the
/// library; validation is a pure decision over their answers.
#[derive(Clone, Copy, PartialEq, Eq, Structural, Debug)]
pub struct IfaceResolution {
    pub index_resolves: bool,
    pub index_of_name: Option<u32>,
}

impl IfaceResolution {
    /// The resolution for a route that references no interface.
    pub fn none() -> (r: Self)
        ensures
            r == (IfaceResolution { index_resolves: true, index_of_name: None }),
    {
        IfaceResolution { index_resolves: true, index_of_name: None }
    }
}

impl Route {
    /// Validation, as a function of the route and the OS lookup answers:
    /// prefix bound, interface-index resolvability, gateway/destination
    /// family match, and if-name/if-index cross-consistency, in that order.
    pub open spec fn spec_check(self, ifc: IfaceResolution) -> Result<(), RouteError> {
        if self.prefix > self.destination.spec_width() {
            Err(RouteError::InvalidPrefix)
        } else if self.if_index is Some && !ifc.index_resolves {
            Err(RouteError::UnresolvedInterface)
        } else if self.gateway is Some && ((self.gateway->0 is V4) != (self.destination is V4)) {
            Err(RouteError::GatewayFamilyMismatch)
        } else if self.if_name is Some && ifc.index_of_name is None {
            Err(RouteError::UnresolvedInterface)
        } else if self.if_name is Some && self.if_index is Some && ifc.index_of_name
            != self.if_index {
            Err(RouteError::IfIndexMismatch)
        } else {
            Ok(())
        }
    }

    /// Validates the route against the OS lookup answers in `ifc`.
    pub fn check(&self, ifc: &IfaceResolution) -> (r: Result<(), RouteError>)
        ensures
            r == self.spec_check(*ifc),
    {
        let width = self.destination.width();
        if self.prefix > width {
            return Err(RouteError::InvalidPrefix);
        }
        if self.if_index.is_some() && !ifc.index_resolves {
            return Err(RouteError::UnresolvedInterface);
        }
        if let Some(gw) = self.gateway {
            if gw.is_v4() != self.destination.is_v4() {
                return Err(RouteError::GatewayFamilyMismatch);
            }
        }
        if self.if_name.is_some() {
            match ifc.index_of_name {
                None => {
                    return Err(RouteError::UnresolvedInterface);
                },
                Some(idx) => {
                    if let Some(if_index) = self.if_index {
                        if idx != if_index {
                            return Err(RouteError::IfIndexMismatch);
                        }
                    }
                },
            }
        }
        Ok(())
    }

    /// The interface index, from `if_index` when set, else from the OS answer
    /// for `if_name`.
    pub open spec fn spec_effective_index(self, ifc: IfaceResolution) -> Option<u32> {
        if self.if_index is Some {
            self.if_index
        } else if self.if_name is Some {
            ifc.index_of_name
        } else {
            None
        }
    }

    pub fn effective_index(&self, ifc: &IfaceResolution) -> (r: Option<u32>)
        ensures
            r == self.spec_effective_index(*ifc),
    {
        match self.if_index {
            Some(idx) => Some(idx),
            None => {
                if self.if_name.is_some() {
                    ifc.index_of_name
                } else {
                    None
                }
            },
        }
    }

    /// The destination masked to the prefix boundary.
    pub fn network(&self) -> (r: IpAddress)
        requires
            self.prefix <= self.destination.spec_width(),
        ensures
            r == network_of(self.destination, self.prefix),
    {
        compute_network(&self.destination, self.prefix)
    }

    /// The prefix as a full address mask of the destination's family.
    pub fn mask(&self) -> (r: IpAddress)
        requires
            self.prefix <= self.destination.spec_width(),
        ensures
            r == (match self.destination {
                IpAddress::V4(_) => IpAddress::V4(mask_v4(self.prefix)),
                IpAddress::V6(_) => IpAddress::V6(mask_v6(self.prefix)),
            }),
    {
        match self.destination {
            IpAddress::V4(_) => IpAddress::V4(compute_mask_v4(self.prefix)),
            IpAddress::V6(_) => IpAddress::V6(compute_mask_v6(self.prefix)),
        }
    }

    /// True iff `addr` shares the destination's family and its network under
    /// this route's prefix equals the route's network.
    pub open spec fn spec_contains(self, addr: IpAddress) -> bool {
        ((addr is V4) == (self.destination is V4)) && network_of(addr, self.prefix) == network_of(
            self.destination,
            self.prefix,
        )
    }

    /// Determines whether the target address is included in the route.
    pub fn contains(&self, dest: &IpAddress) -> (r: bool)
        requires
            self.prefix <= self.destination.spec_width(),
        ensures
            r == self.spec_contains(*dest),
    {
        if dest.is_v4() != self.destination.is_v4() {
            return false;
        }
        let route_network = self.network();
        let addr_network = compute_network(dest, self.prefix);
        match (route_network, addr_network) {
            (IpAddress::V4(a), IpAddress::V4(b)) => a == b,
            (IpAddress::V6(a), IpAddress::V6(b)) => a == b,
            _ => false,
        }
    }
}

/// A route contains its own network address.
pub proof fn lemma_contains_own_network(r: Route)
    requires
        r.prefix <= r.destination.spec_width(),
    ensures
        r.spec_contains(network_of(r.destination, r.prefix)),
{
    match r.destination {
        IpAddress::V4(ip) => {
            lemma_network_v4_idempotent(ip, r.prefix);
        },
        IpAddress::V6(ip) => {
            lemma_network_v6_idempotent(ip, r.prefix);
        },
    }
}

/// An address of the other family is never contained.
pub proof fn lemma_contains_family_mismatch(r: Route, addr: IpAddress)
    requires
        (addr is V4) != (r.destination is V4),
    ensures
        !r.spec_contains(addr),
{
}

/// An IPv4 address that differs from the destination in one of the masked
/// (high, within-prefix) bits is not contained.
pub proof fn lemma_contains_masked_bit_differs_v4(r: Route, addr: u32, i: u32)
    requires
        r.destination is V4,
        r.prefix <= 32,
        32 - r.prefix <= i < 32,
        bit_v4(addr, i) != bit_v4(r.destination->V4_0, i),
    ensures
        !r.spec_contains(IpAddress::V4(addr)),
{
    let d = r.destination->V4_0;
    lemma_network_v4_bits(addr, r.prefix, i);
    lemma_network_v4_bits(d, r.prefix, i);
    assert(bit_v4(addr & mask_v4(r.prefix), i) != bit_v4(d & mask_v4(r.prefix), i));
}

/// An IPv6 address that differs from the destination in one of the masked
/// (high, within-prefix) bits is not contained.
pub proof fn lemma_contains_masked_bit_differs_v6(r: Route, addr: u128, i: u128)
    requires
        r.destination is V6,
        r.prefix <= 128,
        128 - r.prefix <= i < 128,
        bit_v6(addr, i) != bit_v6(r.destination->V6_0, i),
    ensures
        !r.spec_contains(IpAddress::V6(addr)),
{
    let d = r.destination->V6_0;
    lemma_network_v6_bits(addr, r.prefix, i);
    lemma_network_v6_bits(d, r.prefix, i);
    assert(bit_v6(addr & mask_v6(r.prefix), i) != bit_v6(d & mask_v6(r.prefix), i));
}

impl Clone for Route {
    /// A clone is equal to the original on every field.
    fn clone(&self) -> (r: Self)
        ensures
            r == *self,
    {
        Route {
            destination: self.destination,
            prefix: self.prefix,
            gateway: self.gateway,
            if_name: clone_opt_string(&self.if_name),
            if_index: self.if_index,
            table: self.table,
            source: self.source,
            source_prefix: self.source_prefix,
            pref_source: self.pref_source,
            metric: self.metric,
            luid: self.luid,
        }
    }
}

impl Clone for RouteChange {
    /// A clone is equal to the original.
    fn clone(&self) -> (r: Self)
        ensures
            r == *self,
    {
        match self {
            RouteChange::Add(rt) => RouteChange::Add(rt.clone()),
            RouteChange::Delete(rt) => RouteChange::Delete(rt.clone()),
            RouteChange::Change(rt) => RouteChange::Change(rt.clone()),
        }
    }
}

fn clone_opt_string(s: &Option<String>) -> (r: Option<String>)
    ensures
        r == *s,
{
    match s {
        Some(v) => Some(v.clone()),
        None => None,
    }
}

/// Equality of optional strings, by the characters they hold.
pub open spec fn opt_string_eqv(a: Option<String>, b: Option<String>) -> bool {
    match (a, b) {
        (Some(x), Some(y)) => x@ == y@,
        (None, None) => true,
        _ => false,
    }
}

/// Equality of routes: every field equal, the interface name by its
/// characters.
pub open spec fn route_eqv(a: Route, b: Route) -> bool {
    a.destination == b.destination && a.prefix == b.prefix && a.gateway == b.gateway
        && opt_string_eqv(a.if_name, b.if_name) && a.if_index == b.if_index && a.table == b.table
        && a.source == b.source && a.source_prefix == b.source_prefix && a.pref_source
        == b.pref_source && a.metric == b.metric && a.luid == b.luid
}

fn eq_opt_string(a: &Option<String>, b: &Option<String>) -> (r: bool)
    ensures
        r == opt_string_eqv(*a, *b),
{
    match (a, b) {
        (Some(x), Some(y)) => x.eq(y),
        (None, None) => true,
        _ => false,
    }
}

impl PartialEq for Route {
    /// Equality is field-by-field equality.
    fn eq(&self, other: &Self) -> (r: bool) {
        self.destination == other.destination && self.prefix == other.prefix && self.gateway
            == other.gateway && eq_opt_string(&self.if_name, &other.if_name) && self.if_index
            == other.if_index && self.table == other.table && self.source == other.source
            && self.source_prefix == other.source_prefix && self.pref_source == other.pref_source
            && self.metric == other.metric && self.luid == other.luid
    }
}

impl vstd::std_specs::cmp::PartialEqSpecImpl for Route {
    open spec fn obeys_eq_spec() -> bool {
        true
    }

    open spec fn eq_spec(&self, other: &Self) -> bool {
        route_eqv(*self, *other)
    }
}

/// Equality of change events: same variant with equal routes.
pub open spec fn change_eqv(a: RouteChange, b: RouteChange) -> bool {
    match (a, b) {
        (RouteChange::Add(x), RouteChange::Add(y)) => route_eqv(x, y),
        (RouteChange::Delete(x), RouteChange::Delete(y)) => route_eqv(x, y),
        (RouteChange::Change(x), RouteChange::Change(y)) => route_eqv(x, y),
        _ => false,
    }
}

impl PartialEq for RouteChange {
    /// Equality is same variant with equal routes.
    fn eq(&self, other: &Self) -> (r: bool) {
        match (self, other) {
            (RouteChange::Add(a), RouteChange::Add(b)) => a == b,
            (RouteChange::Delete(a), RouteChange::Delete(b)) => a == b,
            (RouteChange::Change(a), RouteChange::Change(b)) => a == b,
            _ => false,
        }
    }
}

impl vstd::std_specs::cmp::PartialEqSpecImpl for RouteChange {
    open spec fn obeys_eq_spec() -> bool {
        true
    }

    open spec fn eq_spec(&self, other: &Self) -> bool {
        change_eqv(*self, *other)
    }
}

} // verus!
