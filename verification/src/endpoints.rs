//! Web endpoints, by the address on which each is served.

use multimap::MultiMap;
use vstd::prelude::*;

verus! {

/// The multimap of the crate `multimap`. Nothing is stated of its inside.
#[verifier::external_type_specification]
#[verifier::external_body]
#[verifier::reject_recursive_types(K)]
#[verifier::reject_recursive_types(V)]
#[verifier::reject_recursive_types(S)]
pub struct ExMultiMap<K, V, S>(multimap::MultiMap<K, V, S>);

/// An address to listen on, in text form.
pub type ListenAddr = String;

/// What answers requests to one path.
pub struct Endpoint {
    /// The path that is served.
    pub path: String,
    /// The number under which the host keeps the handler.
    pub handler: u64,
}

/// The endpoints of each address.
pub type EndpointLists = Map<Seq<char>, Seq<Endpoint>>;

/// The endpoints that `map` lists for each of its addresses, in the order in which they were added.
pub uninterp spec fn endpoint_lists(map: MultiMap<ListenAddr, Endpoint>) -> EndpointLists;

/// The endpoints at `address`: none where the address is not known.
pub open spec fn endpoints_at(
    lists: EndpointLists,
    address: Seq<char>,
) -> Seq<Endpoint> {
    if lists.contains_key(address) {
        lists[address]
    } else {
        Seq::empty()
    }
}

/// Both maps in one: at each address first the endpoints of `first`, then those of `second`.
pub open spec fn joined(
    first: EndpointLists,
    second: EndpointLists,
) -> EndpointLists {
    Map::new(
        |address: Seq<char>| first.contains_key(address) || second.contains_key(address),
        |address: Seq<char>| endpoints_at(first, address) + endpoints_at(second, address),
    )
}

/// All maps in one: at each address that some part knows, the endpoints of all parts, part by part.
pub open spec fn merged(parts: Seq<EndpointLists>) -> EndpointLists {
    Map::new(
        |address: Seq<char>|
            exists|i: int| 0 <= i < parts.len() && (#[trigger] parts[i]).contains_key(address),
        |address: Seq<char>| merged_at(parts, address),
    )
}

/// The endpoints that all parts have at `address`, part by part.
pub open spec fn merged_at(
    parts: Seq<EndpointLists>,
    address: Seq<char>,
) -> Seq<Endpoint> {
    parts.map_values(|part: EndpointLists| endpoints_at(part, address)).flatten()
}

/// What each of `maps` lists.
pub open spec fn all_lists(maps: Seq<MultiMap<ListenAddr, Endpoint>>) -> Seq<EndpointLists> {
    maps.map_values(|map: MultiMap<ListenAddr, Endpoint>| endpoint_lists(map))
}

/// Calls `MultiMap::new`: the new map knows no address.
#[verifier::external_body]
fn no_endpoints() -> (map: MultiMap<ListenAddr, Endpoint>)
    ensures
        endpoint_lists(map) == EndpointLists::empty(),
{
    MultiMap::new()
}

/// Calls `Extend::extend` of `MultiMap` with another such map, which hands over each of its keys
/// with all values of that key: they go behind the values that the key already has, or start a new
/// key.
#[verifier::external_body]
fn extend_endpoints(
    map: &mut MultiMap<ListenAddr, Endpoint>,
    more: MultiMap<ListenAddr, Endpoint>,
)
    ensures
        endpoint_lists(*final(map)) == joined(endpoint_lists(*old(map)), endpoint_lists(more)),
{
    map.extend(more)
}

/// One more part goes behind all others at each address.
pub proof fn lemma_merged_push(
    parts: Seq<EndpointLists>,
    part: EndpointLists,
)
    ensures
        merged(parts.push(part)) == joined(merged(parts), part),
{
    let all = parts.push(part);
    assert forall|address: Seq<char>| #[trigger]
        merged(all).contains_key(address) <==> joined(merged(parts), part).contains_key(
        address,
    ) by {
        if merged(parts).contains_key(address) {
            let i = choose|i: int|
                0 <= i < parts.len() && (#[trigger] parts[i]).contains_key(address);
            assert(all[i].contains_key(address));
        }
        if part.contains_key(address) {
            assert(all[parts.len() as int].contains_key(address));
        }
        if merged(all).contains_key(address) {
            let i = choose|i: int| 0 <= i < all.len() && (#[trigger] all[i]).contains_key(address);
            if i < parts.len() {
                assert(parts[i].contains_key(address));
            }
        }
    }
    assert forall|address: Seq<char>| #[trigger] merged(all).contains_key(address) implies merged(
        all,
    )[address] == joined(merged(parts), part)[address] by {
        lemma_merged_at_push(parts, part, address);
        if !merged(parts).contains_key(address) {
            lemma_merged_at_unknown(parts, address);
        }
    }
    assert(merged(all) =~= joined(merged(parts), part));
}

proof fn lemma_merged_at_push(
    parts: Seq<EndpointLists>,
    part: EndpointLists,
    address: Seq<char>,
)
    ensures
        merged_at(parts.push(part), address) == merged_at(parts, address) + endpoints_at(
            part,
            address,
        ),
{
    let at = |part: EndpointLists| endpoints_at(part, address);
    let lists = parts.map_values(at);
    assert(parts.push(part).map_values(at) =~= lists.push(endpoints_at(part, address)));
    lists.lemma_flatten_push(endpoints_at(part, address));
}

proof fn lemma_merged_at_unknown(parts: Seq<EndpointLists>, address: Seq<char>)
    requires
        !merged(parts).contains_key(address),
    ensures
        merged_at(parts, address) == Seq::<Endpoint>::empty(),
    decreases parts.len(),
{
    if parts.len() > 0 {
        let rest = parts.drop_last();
        let part = parts.last();
        assert(parts =~= rest.push(part));
        assert(!parts[parts.len() - 1].contains_key(address));
        assert forall|i: int| 0 <= i < rest.len() implies !(#[trigger] rest[i]).contains_key(
            address,
        ) by {
            assert(!parts[i].contains_key(address));
        }
        lemma_merged_at_unknown(rest, address);
        lemma_merged_at_push(rest, part, address);
    }
}

/// All parts in one map: at each address that some part knows, the endpoints of all parts, part by
/// part.
pub fn merge_web_endpoints(parts: Vec<MultiMap<ListenAddr, Endpoint>>) -> (all: MultiMap<
    ListenAddr,
    Endpoint,
>)
    ensures
        endpoint_lists(all) == merged(all_lists(parts@)),
{
    let mut all = no_endpoints();
    let ghost given = parts@;
    assert(endpoint_lists(all) =~= merged(all_lists(given.take(0))));
    for part in iter: parts
        invariant
            iter.seq() == given,
            endpoint_lists(all) == merged(all_lists(given.take(iter.index() as int))),
    {
        proof {
            let done = given.take(iter.index() as int);
            assert(given.take(iter.index() + 1) =~= done.push(part));
            assert(all_lists(done.push(part)) =~= all_lists(done).push(endpoint_lists(part)));
            lemma_merged_push(all_lists(done), endpoint_lists(part));
        }
        extend_endpoints(&mut all, part);
    }
    assert(given.take(given.len() as int) =~= given);
    all
}

} // verus!
