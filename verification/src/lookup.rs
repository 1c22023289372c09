//! Route ordering and longest-prefix-match lookup for the platforms without
//! a native best-match primitive: sort the table descending by specificity
//! (prefix length ascending, ties broken by lower metric sorting greater) and
//! return the first entry that contains the queried address.

use crate::addr::IpAddress;
use crate::manager::RouteManager;
use crate::route::Route;
use vstd::prelude::*;

verus! {

broadcast use vstd::seq_lib::group_to_multiset_ensures, vstd::seq_lib::to_multiset_insert;

/// The metric as a total key: an absent metric orders below every present
/// one, as `Option`'s derived order does.
pub open spec fn metric_key(m: Option<u32>) -> int {
    match m {
        None => -1,
        Some(v) => v as int,
    }
}

/// `a <= b` in the route order: prefix length ascending, with ties broken by
/// the *lower* metric sorting greater. A list sorted descending by this order
/// is most-specific-first, lowest metric first among equally specific routes.
pub open spec fn route_le(a: Route, b: Route) -> bool {
    a.prefix < b.prefix || (a.prefix == b.prefix && metric_key(b.metric) <= metric_key(a.metric))
}

/// The route order is total.
pub proof fn lemma_route_le_total(a: Route, b: Route)
    ensures
        route_le(a, b) || route_le(b, a),
{
}

/// The route order is transitive.
pub proof fn lemma_route_le_trans(a: Route, b: Route, c: Route)
    requires
        route_le(a, b),
        route_le(b, c),
    ensures
        route_le(a, c),
{
}

fn metric_rank(m: &Option<u32>) -> (r: i64)
    ensures
        r as int == metric_key(*m),
{
    match m {
        None => -1,
        Some(v) => *v as i64,
    }
}

/// Decides `route_le(*a, *b)`.
pub fn route_le_exec(a: &Route, b: &Route) -> (r: bool)
    ensures
        r == route_le(*a, *b),
{
    if a.prefix < b.prefix {
        true
    } else if a.prefix == b.prefix {
        metric_rank(&b.metric) <= metric_rank(&a.metric)
    } else {
        false
    }
}

/// Descending under the route order: every later element is `route_le` every
/// earlier one.
pub open spec fn sorted_desc(s: Seq<Route>) -> bool {
    forall|i: int, j: int| 0 <= i < j < s.len() ==> route_le(s[j], s[i])
}

/// Every prefix within its family's bit width.
pub open spec fn all_prefixes_valid(s: Seq<Route>) -> bool {
    forall|i: int| 0 <= i < s.len() ==> #[trigger] s[i].prefix <= s[i].destination.spec_width()
}

/// Sorts the routes descending by the route order, keeping exactly the same
/// entries.
pub fn sort_routes(v: &mut Vec<Route>)
    ensures
        sorted_desc(final(v)@),
        final(v)@.to_multiset() == old(v)@.to_multiset(),
{
    if v.len() <= 1 {
        return ;
    }
    let n = v.len();
    let mut i: usize = 1;
    while i < n
        invariant
            1 <= i <= n,
            v@.len() == n,
            sorted_desc(v@.subrange(0, i as int)),
            v@.to_multiset() == old(v)@.to_multiset(),
        decreases n - i,
    {
        let ghost u = v@;
        let x = v.remove(i);
        let ghost w = v@;
        proof {
            assert(u.contains(u[i as int]));
            assert(u.to_multiset().count(x) > 0);
            assert(w.subrange(0, i as int) =~= u.subrange(0, i as int));
        }
        let mut j: usize = 0;
        while j < i && !route_le_exec(&v[j], &x)
            invariant
                j <= i,
                i < n,
                v@ == w,
                w.len() == n - 1,
                forall|a: int| 0 <= a < j ==> !route_le(w[a], x),
            decreases i - j,
        {
            j += 1;
        }
        let ghost jj = j as int;
        v.insert(j, x);
        let ghost z = v@;
        proof {
            let ii = i as int;
            assert(z.to_multiset() =~= u.to_multiset());
            assert forall|a: int, b: int| 0 <= a < b <= ii implies route_le(z[b], z[a]) by {
                if b < jj {
                    assert(route_le(w[b], w[a]));
                } else if b == jj {
                    // z[b] is the inserted element; everything before it was
                    // strictly more preferred, so by totality x is below it.
                    assert(!route_le(w[a], x));
                    lemma_route_le_total(w[a], x);
                } else {
                    // b > jj: z[b] == w[b - 1]
                    if a < jj {
                        assert(route_le(w[b - 1], w[a]));
                    } else if a == jj {
                        // the loop stopped because w[jj] (if any) is le x
                        assert(route_le(w[jj], x));
                        if b - 1 > jj {
                            assert(route_le(w[b - 1], w[jj]));
                            lemma_route_le_trans(w[b - 1], w[jj], x);
                        }
                    } else {
                        assert(route_le(w[b - 1], w[a - 1]));
                    }
                }
            }
            assert(sorted_desc(z.subrange(0, i + 1 as int))) by {
                let zz = z.subrange(0, i + 1 as int);
                assert forall|a: int, b: int| #![trigger zz[a], zz[b]]
                    0 <= a < b < zz.len() implies route_le(zz[b], zz[a]) by {
                    assert(zz[a] == z[a]);
                    assert(zz[b] == z[b]);
                }
            }
        }
        i += 1;
    }
    proof {
        assert(v@.subrange(0, n as int) =~= v@);
    }
}

impl RouteManager {
    /// Route lookup by destination address over a listed table: among the
    /// routes that contain `dest`, the most specific one (longest prefix),
    /// with the lowest metric among equally specific ones. `None` exactly
    /// when no route contains `dest`.
    pub fn find_route(&self, list: &Vec<Route>, dest: &IpAddress) -> (r: Option<Route>)
    requires
        all_prefixes_valid(list@),
    ensures
        match r {
            Some(found) => {
                &&& list@.contains(found)
                &&& found.spec_contains(*dest)
                &&& forall|i: int|
                    0 <= i < list@.len() && #[trigger] list@[i].spec_contains(*dest) ==> route_le(
                        list@[i],
                        found,
                    )
            },
            None => forall|i: int|
                0 <= i < list@.len() ==> !(#[trigger] list@[i].spec_contains(*dest)),
        },
{
    let mut sorted: Vec<Route> = Vec::new();
    let mut k: usize = 0;
    while k < list.len()
        invariant
            k <= list@.len(),
            sorted@ =~= list@.subrange(0, k as int),
        decreases list@.len() - k,
    {
        sorted.push(list[k].clone());
        proof {
            assert(sorted@ =~= list@.subrange(0, k + 1 as int));
        }
        k += 1;
    }
    proof {
        assert(sorted@ =~= list@);
    }
    sort_routes(&mut sorted);
    proof {
        assert forall|e: Route| sorted@.contains(e) implies list@.contains(e) by {
            assert(sorted@.to_multiset().count(e) > 0);
        }
        assert forall|e: Route| list@.contains(e) implies sorted@.contains(e) by {
            assert(list@.to_multiset().count(e) > 0);
        }
    }
    let mut k2: usize = 0;
    while k2 < sorted.len()
        invariant
            k2 <= sorted@.len(),
            sorted_desc(sorted@),
            all_prefixes_valid(list@),
            forall|e: Route| sorted@.contains(e) <==> list@.contains(e),
            forall|a: int| 0 <= a < k2 ==> !(#[trigger] sorted@[a].spec_contains(*dest)),
        decreases sorted@.len() - k2,
    {
        proof {
            assert(sorted@.contains(sorted@[k2 as int]));
            let idx = choose|i: int| 0 <= i < list@.len() && list@[i] == sorted@[k2 as int];
            assert(list@[idx].prefix <= list@[idx].destination.spec_width());
        }
        if sorted[k2].contains(dest) {
            let found = sorted[k2].clone();
            proof {
                let ff = found;
                assert(sorted@.contains(ff));
                assert forall|i: int|
                    0 <= i < list@.len() && #[trigger] list@[i].spec_contains(*dest) implies
                route_le(list@[i], ff) by {
                    let e = list@[i];
                    assert(list@.contains(e));
                    assert(sorted@.contains(e));
                    let j = choose|j: int| 0 <= j < sorted@.len() && sorted@[j] == e;
                    if j < k2 as int {
                        assert(!sorted@[j].spec_contains(*dest));
                    } else if j == k2 as int {
                        assert(route_le(e, ff));
                    } else {
                        assert(route_le(sorted@[j], sorted@[k2 as int]));
                    }
                }
            }
            return Some(found);
        }
        k2 += 1;
    }
    proof {
        assert forall|i: int| 0 <= i < list@.len() implies !(#[trigger] list@[i].spec_contains(
            *dest,
        )) by {
            let e = list@[i];
            assert(list@.contains(e));
            assert(sorted@.contains(e));
            let j = choose|j: int| 0 <= j < sorted@.len() && sorted@[j] == e;
            assert(!sorted@[j].spec_contains(*dest));
        }
    }
        None
    }
}

} // verus!
