//! What holds of the library as a whole.

use std::sync::Arc;

use multimap::MultiMap;
use vstd::pervasive::strictly_cloned;
use vstd::prelude::*;

use crate::builder::{
    in_effect, BuildStep, BuilderParts, CacheRequest, PendingIntrospection, PendingPlanner, PendingRouter, PlannerRequest,
    PluggableTransportServiceBuilder,
};
use crate::endpoints::{
    all_lists, endpoint_lists, endpoints_at, joined, lemma_merged_push, merged, Endpoint,
    EndpointLists, ListenAddr,
};
use crate::limit::{
    is_digit, is_number, limit_for, number_value, parsed_usize, text_of, without_sign,
    DEFAULT_PLAN_CACHE_LIMIT, PLAN_CACHE_LIMIT_VARIABLE,
};
use crate::plugin::{answers_as, serves, wraps, DynPlugin};
use crate::plugins::{found, has_name, inserted, unique_names};
use crate::router::{
    inner_of, wrapped_in_turn, InnerService, RouterCreator, RouterTransport,
    APOLLO_TRAFFIC_SHAPING,
};
use crate::service::{Readiness, SupergraphService, TransportService};
use crate::settings::{strings_of, Configuration};

verus! {

// Registration of plugins.

/// Registering under a name never makes a name occur twice.
pub proof fn law_names_stay_unique<V>(entries: Seq<(Seq<char>, V)>, name: Seq<char>, value: V)
    requires
        unique_names(entries),
    ensures
        unique_names(inserted(entries, name, value)),
{
}

/// What was registered last under a name is what is found under it.
pub proof fn law_registered_is_found<V>(entries: Seq<(Seq<char>, V)>, name: Seq<char>, value: V)
    ensures
        found(inserted(entries, name, value), name) == Some(value),
{
    let after = inserted(entries, name, value);
    if has_name(entries, name) {
        let i = choose|i: int| 0 <= i < entries.len() && (#[trigger] entries[i]).0 == name;
        assert(after[i].0 == name);
    } else {
        assert(after[entries.len() as int].0 == name);
    }
    assert forall|i: int| 0 <= i < after.len() && (#[trigger] after[i]).0 == name implies after[i].1
        == value by {
        if i < entries.len() {
            assert(entries[i].0 == name || entries[i].0 != name);
        }
    }
}

/// Registering under one name leaves what is found under any other as it was.
pub proof fn law_others_are_untouched<V>(
    entries: Seq<(Seq<char>, V)>,
    name: Seq<char>,
    value: V,
    other: Seq<char>,
)
    requires
        unique_names(entries),
        other != name,
    ensures
        found(inserted(entries, name, value), other) == found(entries, other),
{
    let after = inserted(entries, name, value);
    if has_name(entries, other) {
        let i = choose|i: int| 0 <= i < entries.len() && (#[trigger] entries[i]).0 == other;
        assert(after[i] == entries[i]);
        let j = choose|j: int| 0 <= j < after.len() && (#[trigger] after[j]).0 == other;
        assert(after[j].0 == other);
        assert(j < entries.len());
        assert(entries[j].0 == other);
        assert(i == j);
    } else if has_name(after, other) {
        let j = choose|j: int| 0 <= j < after.len() && (#[trigger] after[j]).0 == other;
        assert(entries[j].0 == other);
    }
}

/// Registering keeps every name that was there in its place, and every value under another name.
pub proof fn law_order_is_kept<V>(entries: Seq<(Seq<char>, V)>, name: Seq<char>, value: V, i: int)
    requires
        0 <= i < entries.len(),
    ensures
        inserted(entries, name, value).len() >= entries.len(),
        inserted(entries, name, value)[i].0 == entries[i].0,
        entries[i].0 != name ==> inserted(entries, name, value)[i] == entries[i],
{
}

/// Of two values registered under one name, only the second counts.
pub proof fn law_last_registration_wins<V>(
    entries: Seq<(Seq<char>, V)>,
    name: Seq<char>,
    first: V,
    second: V,
)
    ensures
        inserted(inserted(entries, name, first), name, second) == inserted(entries, name, second),
{
    let once = inserted(entries, name, first);
    if has_name(entries, name) {
        let i = choose|i: int| 0 <= i < entries.len() && (#[trigger] entries[i]).0 == name;
        assert(once[i].0 == name);
        assert(inserted(once, name, second) =~= inserted(entries, name, second));
    } else {
        assert(once[entries.len() as int].0 == name);
        assert(forall|i: int| 0 <= i < entries.len() ==> (#[trigger] entries[i]).0 != name);
        assert(inserted(once, name, second) =~= inserted(entries, name, second));
    }
}

// The builder.

/// It does not matter in which order a plugin, a subgraph service and a configuration are added.
pub proof fn law_additions_commute<P, M>(
    parts: BuilderParts<P, M>,
    plugin_name: Seq<char>,
    plugin: P,
    subgraph_name: Seq<char>,
    service_maker: M,
    configuration: Arc<Configuration>,
)
    ensures
        parts.with_plugin(plugin_name, plugin).with_subgraph(subgraph_name, service_maker)
            == parts.with_subgraph(subgraph_name, service_maker).with_plugin(plugin_name, plugin),
        parts.with_plugin(plugin_name, plugin).configured(configuration) == parts.configured(
            configuration,
        ).with_plugin(plugin_name, plugin),
        parts.with_subgraph(subgraph_name, service_maker).configured(configuration)
            == parts.configured(configuration).with_subgraph(subgraph_name, service_maker),
{
}

/// Of two configurations, only the second counts.
pub proof fn law_last_configuration_wins<P, M>(
    parts: BuilderParts<P, M>,
    first: Arc<Configuration>,
    second: Arc<Configuration>,
)
    ensures
        parts.configured(first).configured(second) == parts.configured(second),
{
}

/// A build without a configuration starts with the planner: there is no introspection, and no
/// shared cache.
pub proof fn law_default_build<I, P, M>(
    builder: PluggableTransportServiceBuilder<P, M>,
    limit_value: Option<Seq<char>>,
    step: BuildStep<I, P, M>,
)
    requires
        builder.configuration is None,
        builder.starts_with(limit_value, step),
    ensures
        step matches BuildStep::Planner(request, pending) && request.introspection is None
            && request.configuration.is_default() && pending.redis_urls is None,
{
}

/// A build waits for introspection if and only if the configuration in effect asks for it.
pub proof fn law_introspection_when_configured<I, P, M>(
    builder: PluggableTransportServiceBuilder<P, M>,
    limit_value: Option<Seq<char>>,
    step: BuildStep<I, P, M>,
)
    requires
        builder.configuration is Some,
        builder.starts_with(limit_value, step),
    ensures
        step is Introspection <==> builder.configuration->0.transport.introspection,
{
}

/// What the planner is made from, whichever way the build took to it: the builder's schema, its
/// configuration and the data for introspection where, and only where, it was asked for.
pub proof fn law_planner_request<I, P, M>(
    builder: PluggableTransportServiceBuilder<P, M>,
    limit_value: Option<Seq<char>>,
    step: BuildStep<I, P, M>,
    introspection: I,
    request: PlannerRequest<I>,
    pending: PendingPlanner<P, M>,
)
    requires
        builder.starts_with(limit_value, step),
        match step {
            BuildStep::Introspection(_, waiting) => waiting.goes_on(
                introspection,
                request,
                pending,
            ),
            BuildStep::Planner(first, waiting) => request == first && pending == waiting,
        },
    ensures
        request.schema == builder.schema,
        in_effect(builder.configuration, *request.configuration),
        request.introspection is Some <==> request.configuration.transport.introspection,
        request.introspection matches Some(given) ==> *given == introspection,
        builder.waits_for_planner(limit_value, *request.configuration, pending),
{
}

/// A build that ends gives every part of the builder to the router creator, the plugins in their
/// original order, and the same plugins to what makes subgraph services. On the way the cache is
/// made with the limit of the environment, the schema's identity and the configured caches.
pub proof fn law_build_keeps_parts<B, Planner, P, M>(
    builder: PluggableTransportServiceBuilder<P, M>,
    limit_value: Option<Seq<char>>,
    configuration: Configuration,
    waiting: PendingPlanner<P, M>,
    planner: B,
    request: CacheRequest<B>,
    last: PendingRouter<P, M>,
    query_planner_service: Planner,
    creator: RouterCreator<Planner, P, M>,
)
    requires
        builder.waits_for_planner(limit_value, configuration, waiting),
        waiting.goes_on(planner, request, last),
        last.ends_with(query_planner_service, creator),
    ensures
        request.planner == planner,
        request.plan_cache_limit == limit_for(limit_value),
        request.schema_id == builder.schema.schema_id,
        strings_of(request.redis_urls) == strings_of(configuration.transport.cache_redis_urls),
        creator.query_planner_service == query_planner_service,
        creator.schema == builder.schema,
        creator.plugins@ == builder@.plugins,
        creator.subgraph_creator.plugins@ == builder@.plugins,
        creator.subgraph_creator.services == builder.subgraph_services,
{
}

// The limit of the plan cache.

/// The decimal digits of a number.
pub open spec fn decimal(number: nat) -> Seq<char>
    decreases number,
{
    let last = (('0' as nat) + number % 10) as char;
    if number < 10 {
        seq![last]
    } else {
        decimal(number / 10).push(last)
    }
}

/// A limit that is written in decimal digits is the limit that is used, with a plus sign before it
/// or without.
pub proof fn law_written_limit_is_used(limit: usize)
    ensures
        limit_for(Some(decimal(limit as nat))) == limit,
        limit_for(Some(seq!['+'] + decimal(limit as nat))) == limit,
{
    let digits = decimal(limit as nat);
    lemma_decimal(limit as nat);
    assert(is_digit(digits[0]));
    assert(without_sign(digits) == digits);
    assert((seq!['+'] + digits).drop_first() =~= digits);
}

proof fn lemma_decimal(number: nat)
    ensures
        is_number(decimal(number)),
        number_value(decimal(number)) == number,
    decreases number,
{
    let last = (('0' as nat) + number % 10) as char;
    assert(is_digit(last) && last as nat - '0' as nat == number % 10);
    if number < 10 {
        assert(seq![last].drop_last() =~= Seq::<char>::empty());
        assert(number_value(Seq::<char>::empty()) == 0);
    } else {
        lemma_decimal(number / 10);
        assert(decimal(number).drop_last() =~= decimal(number / 10));
    }
}

/// A value that is no number leaves the limit at its default.
pub proof fn law_unreadable_limit_is_ignored(text: Seq<char>)
    requires
        !is_number(without_sign(text)) || number_value(without_sign(text)) > usize::MAX,
    ensures
        limit_for(Some(text)) == limit_for(None),
        limit_for(None) == DEFAULT_PLAN_CACHE_LIMIT,
        parsed_usize(text) is None,
{
}

// The service that is made.

/// What all `layers` make of `base`: the last one is applied first, the first one last.
pub open spec fn nested<S>(layers: Seq<spec_fn(S) -> S>, base: S) -> S
    decreases layers.len(),
{
    if layers.len() == 0 {
        base
    } else {
        (layers.first())(nested(layers.drop_first(), base))
    }
}

/// Each plugin's wrapping is this function of the service that is wrapped.
pub open spec fn wrap_as<P: DynPlugin>(
    plugins: Seq<(Seq<char>, P)>,
    layers: Seq<spec_fn(P::Service) -> P::Service>,
) -> bool {
    &&& layers.len() == plugins.len()
    &&& forall|i: int, inner: P::Service, outer: P::Service|
        0 <= i < plugins.len() && #[trigger] wraps(plugins[i].1, inner, outer) ==> outer == (
        layers[i])(inner)
}

/// A request meets the plugins in the order of their registration: where each plugin's wrapping is
/// a function, what goes into the outermost layer is the first plugin's function of the second
/// plugin's, and so on down to the box around the transport service.
pub proof fn law_plugins_nest_in_order<P: DynPlugin>(
    plugins: Seq<(Seq<char>, P)>,
    layers: Seq<spec_fn(P::Service) -> P::Service>,
    links: Seq<P::Service>,
)
    requires
        wrap_as(plugins, layers),
        wrapped_in_turn(plugins, links),
    ensures
        links.last() == nested(layers, links[0]),
    decreases plugins.len(),
{
    if plugins.len() > 0 {
        let n = plugins.len() as int;
        let rest = plugins.drop_first();
        let inside = links.drop_last();
        assert forall|k: int| #![trigger inside[k]] 0 <= k < rest.len() implies wraps(
            rest[rest.len() - 1 - k].1,
            inside[k],
            inside[k + 1],
        ) by {
            assert(links[k] == inside[k]);
            assert(plugins[n - 1 - k] == rest[rest.len() - 1 - k]);
        }
        assert forall|i: int, inner: P::Service, outer: P::Service|
            0 <= i < rest.len() && #[trigger] wraps(rest[i].1, inner, outer) implies outer == (
        layers.drop_first()[i])(inner) by {
            assert(wraps(plugins[i + 1].1, inner, outer));
        }
        law_plugins_nest_in_order(rest, layers.drop_first(), inside);
        assert(links[n - 1] == inside.last());
        assert(wraps(plugins[0].1, links[n - 1], links[n]));
    }
}

/// A router is, from the outside in: the layer that ensures a query, the plugins in the order of
/// their registration, the box, and in it the creator's transport service, shaped where the plugin
/// for it says so. Stated where boxing, the outermost layer and each plugin's wrapping are
/// functions.
pub proof fn law_made_service<Planner: Clone, P: DynPlugin, M, A, Made, Shape, Boxed, Presence>(
    creator: RouterCreator<Planner, P, M>,
    shape: Shape,
    boxed: Boxed,
    presence: Presence,
    made: Made,
    box_of: spec_fn(InnerService<A, RouterTransport<Planner, P, M>>) -> P::Service,
    layers: Seq<spec_fn(P::Service) -> P::Service>,
    outermost: spec_fn(P::Service) -> Made,
) where
    Shape: FnOnce(&P::TrafficShaping, RouterTransport<Planner, P, M>) -> A,
    Boxed: FnOnce(InnerService<A, RouterTransport<Planner, P, M>>) -> P::Service,
    Presence: FnOnce(P::Service) -> Made,

    requires
        creator.makes(shape, boxed, presence, made),
        forall|inner: InnerService<A, RouterTransport<Planner, P, M>>, service: P::Service|
            call_ensures(boxed, (inner,), service) ==> service == box_of(inner),
        wrap_as(creator.plugins@, layers),
        forall|service: P::Service, result: Made|
            call_ensures(presence, (service,), result) ==> result == outermost(service),
    ensures
        exists|
            core: RouterTransport<Planner, P, M>,
            shaping: Option<&P::TrafficShaping>,
            inner: InnerService<A, RouterTransport<Planner, P, M>>,
        |
            {
                &&& creator.makes_core(core)
                &&& creator.shaped_by(shaping)
                &&& #[trigger] inner_of(shaping, core, shape, inner)
                &&& made == outermost(nested(layers, box_of(inner)))
            },
{
    let (core, shaping, inner, links) = choose|
        core: RouterTransport<Planner, P, M>,
        shaping: Option<&P::TrafficShaping>,
        inner: InnerService<A, RouterTransport<Planner, P, M>>,
        links: Seq<P::Service>,
    | #[trigger]
        creator.makes_through(core, shaping, inner, links, shape, boxed, presence, made);
    law_plugins_nest_in_order(creator.plugins@, layers, links);
    assert(inner_of(shaping, core, shape, inner));
}

/// Each plugin is wrapped directly around the one that was registered after it, and the first one
/// is the outermost.
pub proof fn law_plugin_wraps_the_next<P: DynPlugin>(
    plugins: Seq<(Seq<char>, P)>,
    links: Seq<P::Service>,
    i: int,
)
    requires
        wrapped_in_turn(plugins, links),
        0 <= i < plugins.len(),
    ensures
        wraps(plugins[i].1, links[plugins.len() - 1 - i], links[plugins.len() - i]),
        i == 0 ==> links[plugins.len() - i] == links.last(),
{
    let k = plugins.len() - 1 - i;
    assert(links[k] == links[k]);
    assert(plugins[plugins.len() - 1 - k] == plugins[i]);
}

/// A plugin that is registered under a new name goes inside all others: it wraps the box, and the
/// others wrap what it made.
pub proof fn law_new_plugin_goes_inside<P: DynPlugin>(
    plugins: Seq<(Seq<char>, P)>,
    name: Seq<char>,
    plugin: P,
    links: Seq<P::Service>,
)
    requires
        !has_name(plugins, name),
        wrapped_in_turn(inserted(plugins, name, plugin), links),
    ensures
        wraps(plugin, links[0], links[1]),
        wrapped_in_turn(plugins, links.drop_first()),
{
    let all = inserted(plugins, name, plugin);
    let outside = links.drop_first();
    assert(all[all.len() - 1] == (name, plugin));
    assert(wraps(all[all.len() - 1].1, links[0], links[1]));
    assert forall|k: int| #![trigger outside[k]] 0 <= k < plugins.len() implies wraps(
        plugins[plugins.len() - 1 - k].1,
        outside[k],
        outside[k + 1],
    ) by {
        assert(outside[k] == links[k + 1]);
        assert(all[all.len() - 1 - (k + 1)] == plugins[plugins.len() - 1 - k]);
    }
}

/// A router that is made of no plugins is the box with the outermost layer around it.
pub proof fn law_no_plugins<P: DynPlugin>(
    plugins: Seq<(Seq<char>, P)>,
    links: Seq<P::Service>,
)
    requires
        plugins.len() == 0,
        wrapped_in_turn(plugins, links),
    ensures
        links == seq![links[0]],
{
    assert(links =~= seq![links[0]]);
}

/// Traffic is shaped exactly where a plugin goes by the name for it and answers that it shapes
/// traffic. In every other case the transport service goes into the box as it is.
pub proof fn law_shaping_is_by_name_and_kind<
    Planner: Clone,
    P: DynPlugin,
    M,
    A,
    Made,
    Shape,
    Boxed,
    Presence,
>(
    creator: RouterCreator<Planner, P, M>,
    core: RouterTransport<Planner, P, M>,
    shaping: Option<&P::TrafficShaping>,
    inner: InnerService<A, RouterTransport<Planner, P, M>>,
    links: Seq<P::Service>,
    shape: Shape,
    boxed: Boxed,
    presence: Presence,
    made: Made,
) where
    Shape: FnOnce(&P::TrafficShaping, RouterTransport<Planner, P, M>) -> A,
    Boxed: FnOnce(InnerService<A, RouterTransport<Planner, P, M>>) -> P::Service,
    Presence: FnOnce(P::Service) -> Made,

    requires
        creator.makes_through(core, shaping, inner, links, shape, boxed, presence, made),
    ensures
        inner is Shaped <==> shaping is Some,
        shaping is Some ==> has_name(creator.plugins@, APOLLO_TRAFFIC_SHAPING@),
        found(creator.plugins@, APOLLO_TRAFFIC_SHAPING@) matches Some(plugin) ==> answers_as(
            plugin,
            shaping,
        ),
        shaping is None ==> inner == InnerService::<A, RouterTransport<Planner, P, M>>::Plain(core),
{
}

/// Where clones of the planner and of the factory are equal to what they were cloned from, a call
/// leaves the transport service as it was.
pub proof fn law_exact_clones_keep_the_service<ExecutionFactory: Clone, Planner: Clone>(
    before: SupergraphService<ExecutionFactory, Planner>,
    after: SupergraphService<ExecutionFactory, Planner>,
)
    requires
        before.copied_as(after),
        forall|a: Planner, b: Planner| strictly_cloned(a, b) ==> a == b,
        forall|a: ExecutionFactory, b: ExecutionFactory| strictly_cloned(a, b) ==> a == b,
    ensures
        after == before,
{
}

// Web endpoints.

/// Merging two runs of parts is merging each run and joining the two.
pub proof fn law_merge_of_runs(first: Seq<EndpointLists>, second: Seq<EndpointLists>)
    ensures
        merged(first + second) == joined(merged(first), merged(second)),
    decreases second.len(),
{
    if second.len() == 0 {
        assert(first + second =~= first);
        assert(joined(merged(first), merged(second)) =~= merged(first));
    } else {
        let run = second.drop_last();
        let part = second.last();
        assert(first + second =~= (first + run).push(part));
        assert(second =~= run.push(part));
        law_merge_of_runs(first, run);
        lemma_merged_push(first + run, part);
        lemma_merged_push(run, part);
        law_join_is_associative(merged(first), merged(run), part);
    }
}

/// It does not matter in which order neighbouring maps are joined.
pub proof fn law_join_is_associative(a: EndpointLists, b: EndpointLists, c: EndpointLists)
    ensures
        joined(joined(a, b), c) == joined(a, joined(b, c)),
{
    let left = joined(joined(a, b), c);
    let right = joined(a, joined(b, c));
    assert forall|address: Seq<char>| #[trigger] left.contains_key(address) implies left[address]
        == right[address] by {
        assert(left[address] =~= right[address]);
    }
    assert(left =~= right);
}

/// A map that knows no address changes nothing.
pub proof fn law_join_with_nothing(lists: EndpointLists)
    ensures
        joined(lists, EndpointLists::empty()) == lists,
        joined(EndpointLists::empty(), lists) == lists,
{
    assert(joined(lists, EndpointLists::empty()) =~= lists);
    assert(joined(EndpointLists::empty(), lists) =~= lists);
}

/// Every endpoint that some plugin served is listed, at its address and behind all that the
/// plugins before it served there; an address is listed only if some plugin served it.
pub proof fn law_every_endpoint_is_listed<Planner, P: DynPlugin, M>(
    creator: RouterCreator<Planner, P, M>,
    parts: Seq<MultiMap<ListenAddr, Endpoint>>,
    endpoints: MultiMap<ListenAddr, Endpoint>,
    address: Seq<char>,
    i: int,
)
    requires
        creator.serves_through(parts, endpoints),
        0 <= i < parts.len(),
    ensures
        serves(creator.plugins@[i].1, parts[i]),
        endpoint_lists(endpoints).contains_key(address) <==> exists|j: int|
            0 <= j < parts.len() && endpoint_lists(#[trigger] parts[j]).contains_key(address),
        endpoints_at(endpoint_lists(endpoints), address) == endpoints_at(
            merged(all_lists(parts.take(i))),
            address,
        ) + endpoints_at(endpoint_lists(parts[i]), address) + endpoints_at(
            merged(all_lists(parts.skip(i + 1))),
            address,
        ),
{
    let lists = all_lists(parts);
    if exists|j: int|
        0 <= j < parts.len() && endpoint_lists(#[trigger] parts[j]).contains_key(address) {
        let j = choose|j: int|
            0 <= j < parts.len() && endpoint_lists(#[trigger] parts[j]).contains_key(address);
        assert(lists[j].contains_key(address));
    }
    if endpoint_lists(endpoints).contains_key(address) {
        let j = choose|j: int| 0 <= j < lists.len() && (#[trigger] lists[j]).contains_key(address);
        assert(endpoint_lists(parts[j]).contains_key(address));
    }
    let before = all_lists(parts.take(i));
    let part = endpoint_lists(parts[i]);
    let after = all_lists(parts.skip(i + 1));
    assert(lists =~= before.push(part) + after);
    law_merge_of_runs(before.push(part), after);
    lemma_merged_push(before, part);
    assert(endpoints_at(endpoint_lists(endpoints), address) =~= endpoints_at(
        merged(before),
        address,
    ) + endpoints_at(part, address) + endpoints_at(merged(after), address));
}

// What each operation does, said of its inputs and results alone.

/// Registering a plugin with a builder: under a new name the plugin is the last entry of a list that
/// is one longer; under a known name the list stays as long and only the plugin of that name is
/// another. Every name keeps its place, and nothing else of the builder changes.
pub proof fn law_adding_a_plugin<P, M>(parts: BuilderParts<P, M>, name: Seq<char>, plugin: P)
    ensures
        ({
            let before = parts.plugins;
            let after = parts.with_plugin(name, plugin).plugins;
            let known = exists|i: int| 0 <= i < before.len() && (#[trigger] before[i]).0 == name;
            &&& known ==> after.len() == before.len()
            &&& !known ==> after.len() == before.len() + 1 && after.last() == (name, plugin)
            &&& forall|i: int|
                0 <= i < before.len() ==> (#[trigger] after[i]).0 == before[i].0 && after[i].1 == (
                if before[i].0 == name {
                    plugin
                } else {
                    before[i].1
                })
            &&& exists|i: int| 0 <= i < after.len() && #[trigger] after[i] == (name, plugin)
        }),
        parts.with_plugin(name, plugin).schema == parts.schema,
        parts.with_plugin(name, plugin).subgraph_services == parts.subgraph_services,
        parts.with_plugin(name, plugin).configuration == parts.configuration,
{
    law_registration(parts.plugins, name, plugin);
    let before = parts.plugins;
    let after = parts.with_plugin(name, plugin).plugins;
    assert(after == inserted(before, name, plugin));
    let i = choose|i: int|
        0 <= i < inserted(before, name, plugin).len() && #[trigger] inserted(
            before,
            name,
            plugin,
        )[i] == (name, plugin);
    assert(after[i] == (name, plugin));
    assert forall|i: int| 0 <= i < before.len() implies (#[trigger] after[i]).0 == before[i].0
        && after[i].1 == (if before[i].0 == name {
        plugin
    } else {
        before[i].1
    }) by {
        assert(inserted(before, name, plugin)[i].0 == before[i].0);
    }
}

/// Registering in a list of names: a new name goes last, a known one keeps its place and takes the
/// new value, and every other entry is as it was.
pub proof fn law_registration<V>(before: Seq<(Seq<char>, V)>, name: Seq<char>, value: V)
    ensures
        ({
            let after = inserted(before, name, value);
            let known = exists|i: int| 0 <= i < before.len() && (#[trigger] before[i]).0 == name;
            &&& known ==> after.len() == before.len()
            &&& !known ==> after.len() == before.len() + 1 && after.last() == (name, value)
            &&& forall|i: int|
                0 <= i < before.len() ==> (#[trigger] after[i]).0 == before[i].0 && after[i].1 == (
                if before[i].0 == name {
                    value
                } else {
                    before[i].1
                })
            &&& exists|i: int| 0 <= i < after.len() && #[trigger] after[i] == (name, value)
        }),
{
    let after = inserted(before, name, value);
    if has_name(before, name) {
        let i = choose|i: int| 0 <= i < before.len() && (#[trigger] before[i]).0 == name;
        assert(after[i] == (name, value));
    } else {
        assert(forall|i: int| 0 <= i < before.len() ==> (#[trigger] before[i]).0 != name);
        assert(after[before.len() as int] == (name, value));
    }
}

/// What is found under a name is what the entry of that name holds, wherever it stands, and nothing
/// is found under a name that no entry has.
pub proof fn law_lookup<V>(entries: Seq<(Seq<char>, V)>, name: Seq<char>)
    requires
        forall|i: int, j: int|
            0 <= i < j < entries.len() ==> (#[trigger] entries[i]).0 != (#[trigger] entries[j]).0,
    ensures
        unique_names(entries),
        has_name(entries, name) <==> exists|i: int|
            0 <= i < entries.len() && (#[trigger] entries[i]).0 == name,
        forall|i: int|
            0 <= i < entries.len() && (#[trigger] entries[i]).0 == name ==> found(entries, name)
                == Some(entries[i].1),
        (forall|i: int| 0 <= i < entries.len() ==> (#[trigger] entries[i]).0 != name) ==> found(
            entries,
            name,
        ) is None,
{
}

/// That names are unique says that no two places have the same name.
pub proof fn law_unique_names<V>(entries: Seq<(Seq<char>, V)>, i: int, j: int)
    requires
        unique_names(entries),
        0 <= i < entries.len(),
        0 <= j < entries.len(),
        entries[i].0 == entries[j].0,
    ensures
        i == j,
{
}

/// Registering a subgraph service with a builder: the list is one longer, the new service is its
/// last entry, every earlier entry is as it was, and nothing else of the builder changes.
pub proof fn law_adding_a_subgraph_service<P, M>(
    parts: BuilderParts<P, M>,
    name: Seq<char>,
    service_maker: M,
)
    ensures
        ({
            let before = parts.subgraph_services;
            let after = parts.with_subgraph(name, service_maker).subgraph_services;
            &&& after.len() == before.len() + 1
            &&& after[before.len() as int] == (name, service_maker)
            &&& forall|i: int| 0 <= i < before.len() ==> #[trigger] after[i] == before[i]
        }),
        parts.with_subgraph(name, service_maker).schema == parts.schema,
        parts.with_subgraph(name, service_maker).plugins == parts.plugins,
        parts.with_subgraph(name, service_maker).configuration == parts.configuration,
{
}

/// Setting a configuration: it is the one that is set, and nothing else of the builder changes.
pub proof fn law_setting_a_configuration<P, M>(
    parts: BuilderParts<P, M>,
    configuration: Arc<Configuration>,
)
    ensures
        parts.configured(configuration).configuration == Some(configuration),
        parts.configured(configuration).schema == parts.schema,
        parts.configured(configuration).plugins == parts.plugins,
        parts.configured(configuration).subgraph_services == parts.subgraph_services,
{
}

/// What is said of a builder is said of what it holds, part by part and entry by entry.
pub proof fn law_builder_holds_its_parts<P, M>(builder: PluggableTransportServiceBuilder<P, M>)
    ensures
        builder@.schema == builder.schema,
        builder@.plugins == builder.plugins@,
        builder@.configuration == builder.configuration,
        builder@.subgraph_services.len() == builder.subgraph_services@.len(),
        forall|i: int|
            0 <= i < builder.subgraph_services@.len() ==> (
            #[trigger] builder@.subgraph_services[i]).0 == builder.subgraph_services@[i].0@
                && builder@.subgraph_services[i].1 == *builder.subgraph_services@[i].1,
{
}

/// The configuration that was given is, as a whole, the one that introspection and the planner get,
/// and its flag for introspection decides which of the two comes first.
pub proof fn law_given_configuration_is_used<I, P, M>(
    builder: PluggableTransportServiceBuilder<P, M>,
    given: Arc<Configuration>,
    limit_value: Option<Seq<char>>,
    step: BuildStep<I, P, M>,
)
    requires
        builder.configuration == Some(given),
        builder.starts_with(limit_value, step),
    ensures
        match step {
            BuildStep::Introspection(configuration, pending) => {
                &&& given.transport.introspection
                &&& *configuration == *given
                &&& *pending.configuration == *given
            },
            BuildStep::Planner(request, _) => {
                &&& !given.transport.introspection
                &&& *request.configuration == *given
                &&& request.introspection is None
            },
        },
{
}

/// Where no configuration was given, the planner comes first, with a configuration that has no
/// introspection, no shared cache and no text.
pub proof fn law_missing_configuration_is_the_default<I, P, M>(
    builder: PluggableTransportServiceBuilder<P, M>,
    limit_value: Option<Seq<char>>,
    step: BuildStep<I, P, M>,
)
    requires
        builder.configuration is None,
        builder.starts_with(limit_value, step),
    ensures
        step matches BuildStep::Planner(request, pending) && {
            &&& !request.configuration.transport.introspection
            &&& request.configuration.transport.cache_redis_urls is None
            &&& request.configuration.source@.len() == 0
            &&& request.introspection is None
            &&& pending.redis_urls is None
        },
{
}

/// A default configuration has no introspection, no shared cache and no text, and any such
/// configuration is a default one.
pub proof fn law_default_configuration(configuration: Configuration)
    ensures
        configuration.is_default() <==> {
            &&& !configuration.transport.introspection
            &&& configuration.transport.cache_redis_urls is None
            &&& configuration.source@.len() == 0
        },
{
    if configuration.source@.len() == 0 {
        assert(configuration.source@ =~= Seq::<char>::empty());
    }
}

/// A build carries the schema, the plugins and the subgraph services of its builder along, whichever
/// step comes first, with the limit for the variable's value and the configured cache URLs, each of
/// them in its place.
pub proof fn law_build_carries_all_parts<I, P, M>(
    builder: PluggableTransportServiceBuilder<P, M>,
    limit_value: Option<Seq<char>>,
    step: BuildStep<I, P, M>,
)
    requires
        builder.starts_with(limit_value, step),
    ensures
        ({
            let (configuration, waiting) = match step {
                BuildStep::Introspection(configuration, pending) => (configuration, pending.pending),
                BuildStep::Planner(request, pending) => (request.configuration, pending),
            };
            &&& waiting.plan_cache_limit == limit_for(limit_value)
            &&& configuration.transport.cache_redis_urls is None <==> waiting.redis_urls is None
            &&& configuration.transport.cache_redis_urls matches Some(urls) ==> waiting.redis_urls->0@
                == urls@
            &&& waiting.pending.schema == builder.schema
            &&& waiting.pending.plugins == builder.plugins
            &&& waiting.pending.subgraph_services == builder.subgraph_services
        }),
        step matches BuildStep::Planner(request, _) ==> request.schema == builder.schema,
{
}

/// With the data for introspection, the planner is to be made from the pending build's schema and
/// configuration and from just that data, and the rest of the build goes on as it was.
pub proof fn law_after_introspection<I, P, M>(
    waiting: PendingIntrospection<P, M>,
    introspection: I,
    request: PlannerRequest<I>,
    next: PendingPlanner<P, M>,
)
    requires
        waiting.goes_on(introspection, request, next),
    ensures
        request.schema == waiting.pending.pending.schema,
        *request.configuration == *waiting.configuration,
        request.introspection matches Some(given) && *given == introspection,
        next.plan_cache_limit == waiting.pending.plan_cache_limit,
        next.redis_urls == waiting.pending.redis_urls,
        next.pending.schema == waiting.pending.pending.schema,
        next.pending.plugins == waiting.pending.pending.plugins,
        next.pending.subgraph_services == waiting.pending.pending.subgraph_services,
{
}

/// With the planner, the cache is to be made from that planner, from the pending build's limit and
/// URLs and from its schema's identity, and the rest of the build goes on as it was.
pub proof fn law_after_planning<B, P, M>(
    waiting: PendingPlanner<P, M>,
    planner: B,
    request: CacheRequest<B>,
    next: PendingRouter<P, M>,
)
    requires
        waiting.goes_on(planner, request, next),
    ensures
        request.planner == planner,
        request.plan_cache_limit == waiting.plan_cache_limit,
        request.schema_id == waiting.pending.schema.schema_id,
        request.redis_urls == waiting.redis_urls,
        next.schema == waiting.pending.schema,
        next.plugins == waiting.pending.plugins,
        next.subgraph_services == waiting.pending.subgraph_services,
{
}

/// The router creator holds the planner that it was given and every part of the pending build, and
/// what makes subgraph services holds the same plugins.
pub proof fn law_after_caching<Planner, P, M>(
    waiting: PendingRouter<P, M>,
    query_planner_service: Planner,
    creator: RouterCreator<Planner, P, M>,
)
    requires
        waiting.ends_with(query_planner_service, creator),
    ensures
        creator.query_planner_service == query_planner_service,
        creator.schema == waiting.schema,
        *creator.plugins == waiting.plugins,
        *creator.subgraph_creator.plugins == waiting.plugins,
        creator.subgraph_creator.services == waiting.subgraph_services,
{
}

/// A list of strings, or a string, that may be there is there exactly where it is given, with the
/// same content.
pub proof fn law_optional_texts(list: Option<Vec<String>>, text: Option<String>)
    ensures
        match list {
            Some(strings) => strings_of(list) == Some(strings@),
            None => strings_of(list) is None,
        },
        match text {
            Some(string) => text_of(text) == Some(string@),
            None => text_of(text) is None,
        },
{
}

/// Any text of decimal digits sets the limit to its number, whatever zeros lead it and with a plus
/// sign before it or without. A number that is too large for the type leaves the limit at 100.
pub proof fn law_digits_set_the_limit(zeros: nat, number: nat)
    ensures
        ({
            let digits = Seq::new(zeros, |i: int| '0') + decimal(number);
            let limit: int = if number <= usize::MAX {
                number as int
            } else {
                100
            };
            &&& limit_for(Some(digits)) == limit
            &&& limit_for(Some(seq!['+'] + digits)) == limit
        }),
{
    let leading = Seq::new(zeros, |i: int| '0');
    let digits = leading + decimal(number);
    lemma_decimal(number);
    lemma_leading_zeros(zeros, decimal(number));
    assert forall|i: int| 0 <= i < digits.len() implies is_digit(#[trigger] digits[i]) by {
        if i >= zeros {
            assert(digits[i] == decimal(number)[i - zeros]);
        }
    }
    assert(is_digit(digits[0]));
    assert(without_sign(digits) == digits);
    assert((seq!['+'] + digits).drop_first() =~= digits);
}

proof fn lemma_leading_zeros(zeros: nat, digits: Seq<char>)
    ensures
        number_value(Seq::new(zeros, |i: int| '0') + digits) == number_value(digits),
    decreases zeros + digits.len(),
{
    let leading = Seq::new(zeros, |i: int| '0');
    let all = leading + digits;
    if digits.len() > 0 {
        assert(all.drop_last() =~= leading + digits.drop_last());
        lemma_leading_zeros(zeros, digits.drop_last());
    } else if zeros > 0 {
        let fewer = Seq::new((zeros - 1) as nat, |i: int| '0');
        assert(all.drop_last() =~= fewer + digits);
        lemma_leading_zeros((zeros - 1) as nat, digits);
    } else {
        assert(all =~= digits);
    }
}

/// How a number is written: one below ten is its digit, and any other is the number without its last
/// digit, and then that digit.
pub proof fn law_decimal_digits(number: nat, digit: nat)
    requires
        digit < 10,
    ensures
        decimal(digit).len() == 1,
        decimal(digit)[0] as nat == '0' as nat + digit,
        number > 0 ==> decimal(number * 10 + digit) == decimal(number) + decimal(digit),
{
    if number > 0 {
        assert(decimal(number * 10 + digit) =~= decimal(number) + decimal(digit));
    }
}

/// Any other text leaves the limit at 100, and so does no text: a text with no digit, or with a
/// character that is neither a digit nor a plus sign in the first place.
pub proof fn law_other_texts_set_no_limit(text: Seq<char>)
    requires
        text.len() == 0 || text == seq!['+'] || exists|i: int|
            0 <= i < text.len() && !('0' <= #[trigger] text[i] && text[i] <= '9') && !(i == 0
                && text[i] == '+'),
    ensures
        limit_for(Some(text)) == 100,
        limit_for(None) == 100,
{
    if text.len() > 0 && text != seq!['+'] {
        let i = choose|i: int|
            0 <= i < text.len() && !('0' <= #[trigger] text[i] && text[i] <= '9') && !(i == 0
                && text[i] == '+');
        if text[0] == '+' {
            assert(text.drop_first()[i - 1] == text[i]);
        }
        assert(!is_number(without_sign(text)));
    } else if text.len() > 0 {
        assert(text.drop_first().len() == 0);
    }
}

/// The transport service that is made holds the creator's own parts, whatever they are: its schema,
/// all its plugins, what it has for subgraphs, and what the `clone` of its planner gave.
pub proof fn law_core_holds_the_creators_parts<Planner: Clone, P: DynPlugin, M>(
    creator: RouterCreator<Planner, P, M>,
    core: RouterTransport<Planner, P, M>,
)
    requires
        creator.makes_core(core),
    ensures
        strictly_cloned(
            creator.query_planner_service,
            core.supergraph_service.query_planner_service,
        ),
        core.supergraph_service.schema == creator.schema,
        core.supergraph_service.execution_service_factory.schema == creator.schema,
        core.supergraph_service.execution_service_factory.plugins == creator.plugins,
        core.supergraph_service.execution_service_factory.plugins@ == creator.plugins@,
        core.supergraph_service.execution_service_factory.subgraph_creator
            == creator.subgraph_creator,
{
}

/// Layers in each other: without any there is only what they are put around, and one more layer
/// behind all others goes inside them.
pub proof fn law_nested_layers<S>(layers: Seq<spec_fn(S) -> S>, layer: spec_fn(S) -> S, base: S)
    ensures
        nested(Seq::<spec_fn(S) -> S>::empty(), base) == base,
        nested(layers.push(layer), base) == nested(layers, layer(base)),
    decreases layers.len(),
{
    let all = layers.push(layer);
    if layers.len() == 0 {
        assert(all.drop_first() =~= Seq::<spec_fn(S) -> S>::empty());
        assert(nested(all.drop_first(), base) == base);
        assert(all.first() == layer);
    } else {
        assert(all.drop_first() =~= layers.drop_first().push(layer));
        law_nested_layers(layers.drop_first(), layer, base);
        assert(all.first() == layers.first());
    }
}

/// Whatever is made was made step by step.
pub proof fn law_made_in_steps<Planner: Clone, P: DynPlugin, M, A, Made, Shape, Boxed, Presence>(
    creator: RouterCreator<Planner, P, M>,
    shape: Shape,
    boxed: Boxed,
    presence: Presence,
    made: Made,
) where
    Shape: FnOnce(&P::TrafficShaping, RouterTransport<Planner, P, M>) -> A,
    Boxed: FnOnce(InnerService<A, RouterTransport<Planner, P, M>>) -> P::Service,
    Presence: FnOnce(P::Service) -> Made,

    requires
        creator.makes(shape, boxed, presence, made),
    ensures
        exists|
            core: RouterTransport<Planner, P, M>,
            shaping: Option<&P::TrafficShaping>,
            inner: InnerService<A, RouterTransport<Planner, P, M>>,
            links: Seq<P::Service>,
        | #[trigger]
            creator.makes_through(core, shaping, inner, links, shape, boxed, presence, made),
{
}

/// The steps in which a router is made. The plugin under the name for traffic shaping, wherever it
/// stands, is asked whether it shapes traffic; if it does, the shaped transport service goes into
/// the box, and if it does not or there is none, the transport service itself. The last plugin is
/// asked to wrap the box, each plugin before it to wrap what came of that, and no plugin is left
/// out. What the first plugin made goes into the outermost layer.
pub proof fn law_steps_of_making<
    Planner: Clone,
    P: DynPlugin,
    M,
    A,
    Made,
    Shape,
    Boxed,
    Presence,
>(
    creator: RouterCreator<Planner, P, M>,
    core: RouterTransport<Planner, P, M>,
    shaping: Option<&P::TrafficShaping>,
    inner: InnerService<A, RouterTransport<Planner, P, M>>,
    links: Seq<P::Service>,
    shape: Shape,
    boxed: Boxed,
    presence: Presence,
    made: Made,
) where
    Shape: FnOnce(&P::TrafficShaping, RouterTransport<Planner, P, M>) -> A,
    Boxed: FnOnce(InnerService<A, RouterTransport<Planner, P, M>>) -> P::Service,
    Presence: FnOnce(P::Service) -> Made,

    requires
        forall|i: int, j: int|
            0 <= i < j < creator.plugins@.len() ==> (#[trigger] creator.plugins@[i]).0 != (
            #[trigger] creator.plugins@[j]).0,
        creator.makes_through(core, shaping, inner, links, shape, boxed, presence, made),
    ensures
        core.supergraph_service.execution_service_factory.plugins@ == creator.plugins@,
        forall|i: int|
            0 <= i < creator.plugins@.len() && (#[trigger] creator.plugins@[i]).0
                == "apollo.traffic_shaping"@ ==> call_ensures(
                P::as_traffic_shaping,
                (&creator.plugins@[i].1,),
                shaping,
            ),
        (forall|i: int|
            0 <= i < creator.plugins@.len() ==> (#[trigger] creator.plugins@[i]).0
                != "apollo.traffic_shaping"@) ==> shaping is None,
        shaping matches Some(by) ==> (inner matches InnerService::Shaped(shaped) && call_ensures(
            shape,
            (by, core),
            shaped,
        )),
        shaping is None ==> (inner matches InnerService::Plain(plain) && plain == core),
        links.len() == creator.plugins@.len() + 1,
        call_ensures(boxed, (inner,), links[0]),
        forall|i: int|
            0 <= i < creator.plugins@.len() ==> call_ensures(
                P::transport_service,
                (&(#[trigger] creator.plugins@[i]).1, links[creator.plugins@.len() - 1 - i]),
                links[creator.plugins@.len() - i],
            ),
        call_ensures(presence, (links[creator.plugins@.len() as int],), made),
{
    assert forall|i: int| 0 <= i < creator.plugins@.len() implies call_ensures(
        P::transport_service,
        (&(#[trigger] creator.plugins@[i]).1, links[creator.plugins@.len() - 1 - i]),
        links[creator.plugins@.len() - i],
    ) by {
        law_plugin_wraps_the_next(creator.plugins@, links, i);
    }
}

/// What is said of a plugin's answers is said of calls of its methods.
pub proof fn law_answers_are_calls<P: DynPlugin>(
    plugin: P,
    inner: P::Service,
    outer: P::Service,
    endpoints: MultiMap<ListenAddr, Endpoint>,
    shaping: Option<&P::TrafficShaping>,
)
    ensures
        wraps(plugin, inner, outer) <==> call_ensures(
            P::transport_service,
            (&plugin, inner),
            outer,
        ),
        serves(plugin, endpoints) <==> call_ensures(P::web_endpoints, (&plugin,), endpoints),
        answers_as(plugin, shaping) <==> call_ensures(P::as_traffic_shaping, (&plugin,), shaping),
{
}

/// What a call leaves behind, and what a clone is: the planner and the factory are what their
/// `clone` gave, and the schema is the same.
pub proof fn law_copy_of_a_service<ExecutionFactory: Clone, Planner: Clone>(
    service: SupergraphService<ExecutionFactory, Planner>,
    copy: SupergraphService<ExecutionFactory, Planner>,
)
    requires
        service.copied_as(copy),
    ensures
        strictly_cloned(service.query_planner_service, copy.query_planner_service),
        strictly_cloned(service.execution_service_factory, copy.execution_service_factory),
        copy.schema == service.schema,
{
}

/// A poll's answer is reported as it is: what is pending is pending, what is ready is ready, and an
/// error is reported as what `into` made of it.
pub proof fn law_answer_is_reported<ExecutionFactory, Planner, E, B, F: FnOnce(E) -> B>(
    polled: Readiness<E>,
    into: F,
    readiness: Readiness<B>,
)
    requires
        TransportService::<ExecutionFactory, Planner>::reports(polled, into, readiness),
    ensures
        polled is Pending <==> readiness is Pending,
        polled is Ready <==> readiness is Ready,
        polled is Failed <==> readiness is Failed,
        polled matches Readiness::Failed(error) ==> call_ensures(into, (error,), readiness->Failed_0),
{
}

/// Whatever endpoints are listed were served by the plugins part by part.
pub proof fn law_served_in_parts<Planner, P: DynPlugin, M>(
    creator: RouterCreator<Planner, P, M>,
    endpoints: MultiMap<ListenAddr, Endpoint>,
)
    requires
        creator.serves_all(endpoints),
    ensures
        exists|parts: Seq<MultiMap<ListenAddr, Endpoint>>| #[trigger]
            creator.serves_through(parts, endpoints),
{
}

/// Every plugin of the creator is asked for its endpoints, and each address lists what every plugin
/// served there, in the order of the plugins, and nothing else.
pub proof fn law_every_plugin_is_listed<Planner, P: DynPlugin, M>(
    creator: RouterCreator<Planner, P, M>,
    parts: Seq<MultiMap<ListenAddr, Endpoint>>,
    endpoints: MultiMap<ListenAddr, Endpoint>,
    address: Seq<char>,
)
    requires
        creator.serves_through(parts, endpoints),
    ensures
        parts.len() == creator.plugins@.len(),
        forall|i: int|
            0 <= i < creator.plugins@.len() ==> call_ensures(
                P::web_endpoints,
                (&creator.plugins@[i].1,),
                #[trigger] parts[i],
            ),
        endpoint_lists(endpoints).contains_key(address) <==> exists|i: int|
            0 <= i < creator.plugins@.len() && endpoint_lists(#[trigger] parts[i]).contains_key(
                address,
            ),
        endpoint_lists(endpoints).contains_key(address) ==> endpoint_lists(endpoints)[address]
            == Seq::new(
            creator.plugins@.len(),
            |i: int|
                if endpoint_lists(parts[i]).contains_key(address) {
                    endpoint_lists(parts[i])[address]
                } else {
                    Seq::<Endpoint>::empty()
                },
        ).flatten(),
{
    assert forall|i: int| 0 <= i < creator.plugins@.len() implies call_ensures(
        P::web_endpoints,
        (&creator.plugins@[i].1,),
        #[trigger] parts[i],
    ) by {
        assert(serves(creator.plugins@[i].1, parts[i]));
    }
    law_merged_maps(parts, address);
}

/// A merge of maps knows the addresses that some map knows, and at each of them it lists what every
/// map lists there, in the order of the maps, and nothing else.
pub proof fn law_merged_maps(maps: Seq<MultiMap<ListenAddr, Endpoint>>, address: Seq<char>)
    ensures
        ({
            let all = merged(all_lists(maps));
            &&& all.contains_key(address) <==> exists|i: int|
                0 <= i < maps.len() && endpoint_lists(#[trigger] maps[i]).contains_key(address)
            &&& all.contains_key(address) ==> all[address] == Seq::new(
                maps.len(),
                |i: int|
                    if endpoint_lists(maps[i]).contains_key(address) {
                        endpoint_lists(maps[i])[address]
                    } else {
                        Seq::<Endpoint>::empty()
                    },
            ).flatten()
        }),
{
    let lists = all_lists(maps);
    let all = merged(lists);
    if exists|i: int|
        0 <= i < maps.len() && endpoint_lists(#[trigger] maps[i]).contains_key(address) {
        let i = choose|i: int|
            0 <= i < maps.len() && endpoint_lists(#[trigger] maps[i]).contains_key(address);
        assert(lists[i].contains_key(address));
    }
    if all.contains_key(address) {
        let i = choose|i: int| 0 <= i < lists.len() && (#[trigger] lists[i]).contains_key(address);
        assert(endpoint_lists(maps[i]).contains_key(address));
    }
    assert(lists.map_values(|part: EndpointLists| endpoints_at(part, address)) =~= Seq::new(
        maps.len(),
        |i: int|
            if endpoint_lists(maps[i]).contains_key(address) {
                endpoint_lists(maps[i])[address]
            } else {
                Seq::<Endpoint>::empty()
            },
    ));
}

/// Two maps joined know the addresses of both, and at an address that both know the endpoints of
/// the second stand behind those of the first.
pub proof fn law_joined_maps(first: EndpointLists, second: EndpointLists, address: Seq<char>)
    ensures
        joined(first, second).contains_key(address) <==> first.contains_key(address)
            || second.contains_key(address),
        first.contains_key(address) && second.contains_key(address) ==> joined(
            first,
            second,
        )[address] == first[address] + second[address],
        first.contains_key(address) && !second.contains_key(address) ==> joined(
            first,
            second,
        )[address] == first[address],
        !first.contains_key(address) && second.contains_key(address) ==> joined(
            first,
            second,
        )[address] == second[address],
{
    assert(first[address] + Seq::<Endpoint>::empty() =~= first[address]);
    assert(Seq::<Endpoint>::empty() + second[address] =~= second[address]);
}

/// The names that the router goes by outside: the plugin for traffic shaping and the variable for
/// the limit.
pub proof fn law_names_outside()
    ensures
        APOLLO_TRAFFIC_SHAPING@ == "apollo.traffic_shaping"@,
        PLAN_CACHE_LIMIT_VARIABLE@ == "ROUTER_PLAN_CACHE_LIMIT"@,
{
}

} // verus!
