//! Lookups over a read map: records by id, and the route links that a line
//! runs along.
use std::collections::HashMap;
use vstd::prelude::*;
use vstd::std_specs::hash::group_hash_axioms;
use crate::model::{RouteLinkRecord, RouteLinkView, TransportRecord, TransportView};

verus! {

broadcast use group_hash_axioms;

/// Each id mapped to the last position that holds it.
pub open spec fn id_map(ids: Seq<u64>) -> Map<u64, usize>
    decreases ids.len(),
{
    if ids.len() == 0 {
        Map::empty()
    } else {
        id_map(ids.drop_last()).insert(ids.last(), (ids.len() - 1) as usize)
    }
}

/// The index from id to position, as collecting `(id, position)` pairs
/// into a map builds it: a later record with the same id replaces an
/// earlier one.
pub fn index_by_id(ids: &Vec<u64>) -> (m: HashMap<u64, usize>)
    ensures
        m@ == id_map(ids@),
{
    let mut m: HashMap<u64, usize> = HashMap::new();
    assert(ids@.take(0) =~= Seq::<u64>::empty());
    for i in 0..ids.len()
        invariant
            m@ == id_map(ids@.take(i as int)),
    {
        m.insert(ids[i], i);
        assert(ids@.take(i + 1).drop_last() =~= ids@.take(i as int));
    }
    assert(ids@.take(ids.len() as int) =~= ids@);
    m
}

/// The index maps every listed id, and only those, to the last position
/// that holds it.
pub proof fn law_index_keeps_last(ids: Seq<u64>, id: u64)
    requires
        ids.len() <= usize::MAX,
    ensures
        id_map(ids).contains_key(id) <==> ids.contains(id),
        id_map(ids).contains_key(id) ==> {
            let p = id_map(ids)[id] as int;
            &&& 0 <= p < ids.len()
            &&& ids[p] == id
            &&& forall|q: int| p < q < ids.len() ==> ids[q] != id
        },
    decreases ids.len(),
{
    if ids.len() > 0 {
        let rest = ids.drop_last();
        law_index_keeps_last(rest, id);
        if ids.last() != id {
            if id_map(ids).contains_key(id) {
                assert(id_map(ids)[id] == id_map(rest)[id]);
                let p = id_map(rest)[id] as int;
                assert(ids[p] == rest[p]);
                assert forall|q: int| p < q < ids.len() implies ids[q] != id by {
                    if q < rest.len() {
                        assert(ids[q] == rest[q]);
                    }
                }
            }
            if rest.contains(id) {
                let k = choose|k: int| 0 <= k < rest.len() && rest[k] == id;
                assert(ids[k] == id);
            }
            if ids.contains(id) {
                let k = choose|k: int| 0 <= k < ids.len() && ids[k] == id;
                assert(rest[k] == id);
            }
        } else {
            assert(ids[ids.len() - 1] == id);
        }
    }
}

/// The position of the first record with id `id`.
pub fn position_of_id(ids: &Vec<u64>, id: u64) -> (r: Option<usize>)
    ensures
        match r {
            Some(p) => p < ids.len() && ids@[p as int] == id && forall|q: int|
                0 <= q < p ==> ids@[q] != id,
            None => !ids@.contains(id),
        },
{
    for i in 0..ids.len()
        invariant
            forall|q: int| 0 <= q < i ==> ids@[q] != id,
    {
        if ids[i] == id {
            return Some(i);
        }
    }
    None
}

/// A line runs along a link when two consecutive stops of the line are the
/// link's ends, in order.
pub open spec fn runs_along(route: TransportView, link: RouteLinkView) -> bool {
    exists|j: int|
        0 <= j < route.stops.len() - 1 && #[trigger] route.stops[j] == link.start_node
            && route.stops[j + 1] == link.end_node
}

/// The positions `0..n` of the links a line runs along, in order.
pub open spec fn links_along(route: TransportView, links: Seq<RouteLinkView>, n: int) -> Seq<usize>
    decreases n,
{
    if n <= 0 {
        Seq::empty()
    } else if runs_along(route, links[n - 1]) {
        links_along(route, links, n - 1).push((n - 1) as usize)
    } else {
        links_along(route, links, n - 1)
    }
}

/// The route links of a line are listed in increasing order, each one a
/// link that the line runs along, and every link that it runs along is
/// listed.
pub proof fn law_route_links_exact(route: TransportView, links: Seq<RouteLinkView>, n: int)
    requires
        0 <= n <= links.len(),
        links.len() <= usize::MAX,
    ensures
        forall|k: int|
            0 <= k < links_along(route, links, n).len() ==> {
                let p = #[trigger] links_along(route, links, n)[k];
                p < n && runs_along(route, links[p as int])
            },
        forall|j: int, k: int|
            0 <= j < k < links_along(route, links, n).len() ==> links_along(route, links, n)[j]
                < links_along(route, links, n)[k],
        forall|i: int|
            0 <= i < n && runs_along(route, #[trigger] links[i]) ==> links_along(
                route,
                links,
                n,
            ).contains(i as usize),
    decreases n,
{
    if n > 0 {
        law_route_links_exact(route, links, n - 1);
        let before = links_along(route, links, n - 1);
        let now = links_along(route, links, n);
        if runs_along(route, links[n - 1]) {
            assert(now == before.push((n - 1) as usize));
            assert(now[now.len() - 1] == (n - 1) as usize);
            assert forall|i: int| 0 <= i < n && runs_along(route, #[trigger] links[i]) implies now.contains(
                i as usize,
            ) by {
                if i < n - 1 {
                    let w = choose|w: int| 0 <= w < before.len() && before[w] == i as usize;
                    assert(now[w] == i as usize);
                }
            }
        }
    }
}

fn route_runs_along(route: &TransportRecord, link: &RouteLinkRecord) -> (r: bool)
    ensures
        r == runs_along(route@, link@),
{
    let n = route.stops.len();
    if n < 2 {
        return false;
    }
    for j in 0..n - 1
        invariant
            n == route.stops.len(),
            n >= 2,
            forall|k: int|
                0 <= k < j ==> !(#[trigger] route.stops@[k] == link.start_node && route.stops@[k
                    + 1] == link.end_node),
    {
        if route.stops[j] == link.start_node && route.stops[j + 1] == link.end_node {
            assert(route@.stops[j as int] == link@.start_node);
            return true;
        }
    }
    false
}

/// The positions of the route links that a line runs along, in order; a
/// line with fewer than two stops runs along none.
pub fn route_links_for_route(route: &TransportRecord, route_links: &Vec<RouteLinkRecord>) -> (r:
    Vec<usize>)
    ensures
        r@ == links_along(
            route@,
            route_links@.map_values(|l: RouteLinkRecord| l@),
            route_links.len() as int,
        ),
{
    let ghost links = route_links@.map_values(|l: RouteLinkRecord| l@);
    let mut out: Vec<usize> = Vec::new();
    if route.stops.len() < 2 {
        assert forall|n: int| 0 <= n <= links.len() implies links_along(route@, links, n)
            =~= Seq::<usize>::empty() by {
            lemma_no_links(route@, links, n);
        }
        return out;
    }
    for i in 0..route_links.len()
        invariant
            links == route_links@.map_values(|l: RouteLinkRecord| l@),
            out@ == links_along(route@, links, i as int),
    {
        if route_runs_along(route, &route_links[i]) {
            out.push(i);
        }
    }
    out
}

proof fn lemma_no_links(route: TransportView, links: Seq<RouteLinkView>, n: int)
    requires
        route.stops.len() < 2,
        n <= links.len(),
    ensures
        links_along(route, links, n) == Seq::<usize>::empty(),
    decreases n,
{
    if n > 0 {
        lemma_no_links(route, links, n - 1);
    }
}

} // verus!
