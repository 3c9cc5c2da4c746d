//! What makes routers: the services of the transport phase, wrapped by the plugins.

use std::sync::Arc;

use multimap::MultiMap;
use vstd::pervasive::strictly_cloned;
use vstd::prelude::*;

use crate::endpoints::{
    all_lists, endpoint_lists, merge_web_endpoints, merged, Endpoint, ListenAddr,
};
use crate::plugin::{answers_as, serves, wraps, DynPlugin};
use crate::plugins::{found, Plugins};
use crate::service::{ExecutionCreator, SubgraphCreator, SupergraphService, TransportService};
use crate::settings::Schema;

verus! {

/// The name of the plugin that shapes traffic.
pub const APOLLO_TRAFFIC_SHAPING: &'static str = "apollo.traffic_shaping";

/// The service inside all plugins.
pub enum InnerService<A, B> {
    /// The transport service with its traffic shaped.
    Shaped(A),
    /// The transport service as it is.
    Plain(B),
}

/// The transport service of a [`RouterCreator`].
pub type RouterTransport<Planner, P, M> = TransportService<ExecutionCreator<P, M>, Planner>;

/// A collection of services and data from which routers are made.
pub struct RouterCreator<Planner, P, M> {
    /// What plans queries.
    pub query_planner_service: Planner,
    /// What makes the services for subgraphs.
    pub subgraph_creator: Arc<SubgraphCreator<P, M>>,
    /// The schema that is served.
    pub schema: Arc<Schema>,
    /// The plugins, in order.
    pub plugins: Arc<Plugins<P>>,
}

impl<Planner: Clone, P, M> Clone for RouterCreator<Planner, P, M> {
    fn clone(&self) -> (copy: Self)
        ensures
            strictly_cloned(self.query_planner_service, copy.query_planner_service),
            copy.subgraph_creator == self.subgraph_creator,
            copy.schema == self.schema,
            copy.plugins == self.plugins,
    {
        RouterCreator {
            query_planner_service: self.query_planner_service.clone(),
            subgraph_creator: self.subgraph_creator.clone(),
            schema: self.schema.clone(),
            plugins: self.plugins.clone(),
        }
    }
}

/// `links[0]` is wrapped by the last plugin, that by the one before it, and so on: `links[k]` is
/// what the last `k` plugins made of `links[0]`.
pub open spec fn wrapped_in_turn<P: DynPlugin>(
    plugins: Seq<(Seq<char>, P)>,
    links: Seq<P::Service>,
) -> bool {
    &&& links.len() == plugins.len() + 1
    &&& forall|k: int|
        #![trigger links[k]]
        0 <= k < plugins.len() ==> wraps(
            plugins[plugins.len() - 1 - k].1,
            links[k],
            links[k + 1],
        )
}

impl<Planner: Clone, P: DynPlugin, M> RouterCreator<Planner, P, M> {
    /// `core` is made of what this creator holds: its schema, its plugins, what it has for
    /// subgraphs and what the `clone` of its planner gave.
    pub open spec fn makes_core(self, core: RouterTransport<Planner, P, M>) -> bool {
        let service = core.supergraph_service;
        &&& strictly_cloned(self.query_planner_service, service.query_planner_service)
        &&& service.execution_service_factory.schema == self.schema
        &&& service.execution_service_factory.plugins == self.plugins
        &&& service.execution_service_factory.subgraph_creator == self.subgraph_creator
        &&& service.schema == self.schema
    }

    /// `shaping` is what the plugin under the name for traffic shaping answered: nothing where
    /// there is no plugin of this name.
    pub open spec fn shaped_by(self, shaping: Option<&P::TrafficShaping>) -> bool {
        match found(self.plugins@, APOLLO_TRAFFIC_SHAPING@) {
            Some(plugin) => answers_as(plugin, shaping),
            None => shaping is None,
        }
    }
}

/// `inner` is `core` shaped by `shape` where there is a plugin to shape it, and `core` as it is
/// where there is none.
pub open spec fn inner_of<T, A, C, Shape: FnOnce(&T, C) -> A>(
    shaping: Option<&T>,
    core: C,
    shape: Shape,
    inner: InnerService<A, C>,
) -> bool {
    match shaping {
        Some(by) => inner matches InnerService::Shaped(shaped) && call_ensures(
            shape,
            (by, core),
            shaped,
        ),
        None => inner == InnerService::<A, C>::Plain(core),
    }
}

impl<Planner: Clone, P: DynPlugin, M> RouterCreator<Planner, P, M> {
    /// `made` was made of `core` step by step: `inner` is what went into the box, `links` are the
    /// box and what each plugin made of it, and the last link went into `ensure_query_presence`.
    pub open spec fn makes_through<A, Made, Shape, Boxed, Presence>(
        self,
        core: RouterTransport<Planner, P, M>,
        shaping: Option<&P::TrafficShaping>,
        inner: InnerService<A, RouterTransport<Planner, P, M>>,
        links: Seq<P::Service>,
        shape: Shape,
        boxed: Boxed,
        ensure_query_presence: Presence,
        made: Made,
    ) -> bool where
        Shape: FnOnce(&P::TrafficShaping, RouterTransport<Planner, P, M>) -> A,
        Boxed: FnOnce(InnerService<A, RouterTransport<Planner, P, M>>) -> P::Service,
        Presence: FnOnce(P::Service) -> Made,
     {
        &&& self.makes_core(core)
        &&& self.shaped_by(shaping)
        &&& inner_of(shaping, core, shape, inner)
        &&& wrapped_in_turn(self.plugins@, links)
        &&& call_ensures(boxed, (inner,), links[0])
        &&& call_ensures(ensure_query_presence, (links.last(),), made)
    }

    /// `made` was made of this creator's transport service and plugins.
    pub open spec fn makes<A, Made, Shape, Boxed, Presence>(
        self,
        shape: Shape,
        boxed: Boxed,
        ensure_query_presence: Presence,
        made: Made,
    ) -> bool where
        Shape: FnOnce(&P::TrafficShaping, RouterTransport<Planner, P, M>) -> A,
        Boxed: FnOnce(InnerService<A, RouterTransport<Planner, P, M>>) -> P::Service,
        Presence: FnOnce(P::Service) -> Made,
     {
        exists|
            core: RouterTransport<Planner, P, M>,
            shaping: Option<&P::TrafficShaping>,
            inner: InnerService<A, RouterTransport<Planner, P, M>>,
            links: Seq<P::Service>,
        | #[trigger]
            self.makes_through(
                core,
                shaping,
                inner,
                links,
                shape,
                boxed,
                ensure_query_presence,
                made,
            )
    }

    /// The service of a router. From the inside out: the transport service, shaped by the plugin
    /// for traffic shaping where there is one; then every plugin, the last one first, so that the
    /// first plugin meets a request first; then what `ensure_query_presence` puts around all.
    ///
    /// `shape` applies the plugin for traffic shaping and `boxed` boxes what goes into the plugins.
    pub fn make<A, Made, Shape, Boxed, Presence>(
        &self,
        shape: Shape,
        boxed: Boxed,
        ensure_query_presence: Presence,
    ) -> (made: Made)
        where
            Shape: FnOnce(&P::TrafficShaping, RouterTransport<Planner, P, M>) -> A,
            Boxed: FnOnce(InnerService<A, RouterTransport<Planner, P, M>>) -> P::Service,
            Presence: FnOnce(P::Service) -> Made,
        requires
            forall|shaping: &P::TrafficShaping, core: RouterTransport<Planner, P, M>|
                call_requires(shape, (shaping, core)),
            forall|inner: InnerService<A, RouterTransport<Planner, P, M>>|
                call_requires(boxed, (inner,)),
            forall|service: P::Service| call_requires(ensure_query_presence, (service,)),
        ensures
            self.makes(shape, boxed, ensure_query_presence, made),
    {
        let core = TransportService::new(
            SupergraphService::new(
                self.query_planner_service.clone(),
                ExecutionCreator {
                    schema: self.schema.clone(),
                    plugins: self.plugins.clone(),
                    subgraph_creator: self.subgraph_creator.clone(),
                },
                self.schema.clone(),
            ),
        );
        let ghost made_core = core;
        let shaping = match self.plugins.find(APOLLO_TRAFFIC_SHAPING) {
            Some(plugin) => plugin.as_traffic_shaping(),
            None => None,
        };
        let inner = match shaping {
            Some(by) => InnerService::Shaped(shape(by, core)),
            None => InnerService::Plain(core),
        };
        let ghost made_inner = inner;
        let mut service = boxed(inner);
        let ghost mut links: Seq<P::Service> = seq![service];
        let mut left: usize = self.plugins.len();
        while left > 0
            invariant
                left <= self.plugins@.len(),
                links.len() == self.plugins@.len() - left + 1,
                links.last() == service,
                call_ensures(boxed, (made_inner,), links[0]),
                forall|k: int|
                    #![trigger links[k]]
                    0 <= k < self.plugins@.len() - left ==> wraps(
                        self.plugins@[self.plugins@.len() - 1 - k].1,
                        links[k],
                        links[k + 1],
                    ),
            decreases left,
        {
            left -= 1;
            if let Some((_, plugin)) = self.plugins.get_index(left) {
                service = plugin.transport_service(service);
                proof {
                    links = links.push(service);
                }
            }
        }
        let made = ensure_query_presence(service);
        assert(self.makes_through(
            made_core,
            shaping,
            made_inner,
            links,
            shape,
            boxed,
            ensure_query_presence,
            made,
        ));
        made
    }

}

impl<Planner, P: DynPlugin, M> RouterCreator<Planner, P, M> {
    /// `endpoints` lists what the plugins served, plugin by plugin at each address.
    pub open spec fn serves_all(self, endpoints: MultiMap<ListenAddr, Endpoint>) -> bool {
        exists|parts: Seq<MultiMap<ListenAddr, Endpoint>>| #[trigger]
            self.serves_through(parts, endpoints)
    }

    /// `parts` is what each plugin served and `endpoints` lists all of it.
    pub open spec fn serves_through(
        self,
        parts: Seq<MultiMap<ListenAddr, Endpoint>>,
        endpoints: MultiMap<ListenAddr, Endpoint>,
    ) -> bool {
        &&& parts.len() == self.plugins@.len()
        &&& forall|i: int|
            0 <= i < parts.len() ==> serves(self.plugins@[i].1, #[trigger] parts[i])
        &&& endpoint_lists(endpoints) == merged(all_lists(parts))
    }

    /// The web endpoints of all plugins, plugin by plugin at each address.
    pub fn web_endpoints(&self) -> (endpoints: MultiMap<ListenAddr, Endpoint>)
        ensures
            self.serves_all(endpoints),
    {
        let mut parts: Vec<MultiMap<ListenAddr, Endpoint>> = Vec::new();
        let mut index: usize = 0;
        while index < self.plugins.len()
            invariant
                index <= self.plugins@.len(),
                parts@.len() == index,
                forall|i: int|
                    0 <= i < parts@.len() ==> serves(self.plugins@[i].1, #[trigger] parts@[i]),
            decreases self.plugins@.len() - index,
        {
            if let Some((_, plugin)) = self.plugins.get_index(index) {
                parts.push(plugin.web_endpoints());
            }
            index += 1;
        }
        let ghost served = parts@;
        let endpoints = merge_web_endpoints(parts);
        assert(self.serves_through(served, endpoints));
        endpoints
    }
}

} // verus!
