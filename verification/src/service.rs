//! The services of the transport phase and what they are made from.

use std::sync::Arc;

use vstd::pervasive::strictly_cloned;
use vstd::prelude::*;

use crate::plugins::Plugins;
use crate::settings::Schema;

verus! {

/// What makes the services that talk to subgraphs.
pub struct SubgraphCreator<P, M> {
    /// The maker of each subgraph's service, with the subgraph's name.
    pub services: Vec<(String, Arc<M>)>,
    /// The plugins that wrap those services.
    pub plugins: Arc<Plugins<P>>,
}

impl<P, M> SubgraphCreator<P, M> {
    /// A creator with these makers and these plugins.
    pub fn new(services: Vec<(String, Arc<M>)>, plugins: Arc<Plugins<P>>) -> (creator: Self)
        ensures
            creator.services == services,
            creator.plugins == plugins,
    {
        SubgraphCreator { services, plugins }
    }
}

/// What makes the services that execute query plans.
pub struct ExecutionCreator<P, M> {
    /// The schema that is served.
    pub schema: Arc<Schema>,
    /// The plugins that wrap the services.
    pub plugins: Arc<Plugins<P>>,
    /// What makes the services for subgraphs.
    pub subgraph_creator: Arc<SubgraphCreator<P, M>>,
}

impl<P, M> Clone for ExecutionCreator<P, M> {
    fn clone(&self) -> (copy: Self)
        ensures
            copy == *self,
    {
        ExecutionCreator {
            schema: self.schema.clone(),
            plugins: self.plugins.clone(),
            subgraph_creator: self.subgraph_creator.clone(),
        }
    }
}

/// Plans a query and executes the plan.
pub struct SupergraphService<ExecutionFactory, Planner> {
    /// What plans queries.
    pub query_planner_service: Planner,
    /// What makes a service for each plan.
    pub execution_service_factory: ExecutionFactory,
    /// The schema that is served.
    pub schema: Arc<Schema>,
}

impl<ExecutionFactory, Planner> SupergraphService<ExecutionFactory, Planner> {
    /// A service of these parts.
    pub fn new(
        query_planner_service: Planner,
        execution_service_factory: ExecutionFactory,
        schema: Arc<Schema>,
    ) -> (service: Self)
        ensures
            service.query_planner_service == query_planner_service,
            service.execution_service_factory == execution_service_factory,
            service.schema == schema,
    {
        SupergraphService { query_planner_service, execution_service_factory, schema }
    }
}

impl<ExecutionFactory: Clone, Planner: Clone> SupergraphService<ExecutionFactory, Planner> {
    /// `copy` is a clone of this service: the planner and the factory are what their `clone` gave,
    /// the schema is the same.
    pub open spec fn copied_as(self, copy: Self) -> bool {
        &&& strictly_cloned(self.query_planner_service, copy.query_planner_service)
        &&& strictly_cloned(self.execution_service_factory, copy.execution_service_factory)
        &&& copy.schema == self.schema
    }
}

impl<ExecutionFactory: Clone, Planner: Clone> Clone for SupergraphService<
    ExecutionFactory,
    Planner,
> {
    fn clone(&self) -> (copy: Self)
        ensures
            self.copied_as(copy),
    {
        SupergraphService {
            query_planner_service: self.query_planner_service.clone(),
            execution_service_factory: self.execution_service_factory.clone(),
            schema: self.schema.clone(),
        }
    }
}

/// What a service answers when it is asked whether it can take a request.
pub enum Readiness<E> {
    /// Not yet.
    Pending,
    /// A request can be sent.
    Ready,
    /// The service failed and takes no request any more.
    Failed(E),
}

/// The service that stands first in the request lifecycle.
pub struct TransportService<ExecutionFactory, Planner> {
    /// The service that requests are handed on to.
    pub supergraph_service: SupergraphService<ExecutionFactory, Planner>,
}

impl<ExecutionFactory, Planner> TransportService<ExecutionFactory, Planner> {
    /// A service that hands its requests on to `supergraph_service`.
    pub fn new(supergraph_service: SupergraphService<ExecutionFactory, Planner>) -> (service: Self)
        ensures
            service.supergraph_service == supergraph_service,
    {
        TransportService { supergraph_service }
    }

    /// `readiness` is what `polled` says, with an error turned by `into` into one of the kind that
    /// is reported here.
    pub open spec fn reports<E, B, F: FnOnce(E) -> B>(
        polled: Readiness<E>,
        into: F,
        readiness: Readiness<B>,
    ) -> bool {
        match polled {
            Readiness::Pending => readiness is Pending,
            Readiness::Ready => readiness is Ready,
            Readiness::Failed(error) => readiness matches Readiness::Failed(reported)
                && call_ensures(into, (error,), reported),
        }
    }

    /// Asks, by `poll` and with the caller's `cx`, whether a request can be sent. The service that
    /// is asked is the one that requests are handed on to, and it stays in its place, as the poll
    /// left it. Its answer is passed on, with an error turned by `into` into one of the kind that is
    /// reported here.
    pub fn poll_ready<Cx, E, B, G, F>(&mut self, cx: Cx, poll: G, into: F) -> (readiness: Readiness<
        B,
    >)
        where
            G: FnOnce(&mut SupergraphService<ExecutionFactory, Planner>, Cx) -> Readiness<E>,
            F: FnOnce(E) -> B,
        requires
            forall|held: &mut SupergraphService<ExecutionFactory, Planner>|
                *held == old(self).supergraph_service ==> call_requires(poll, (held, cx)),
            forall|error: E| call_requires(into, (error,)),
        ensures
            exists|held: &mut SupergraphService<ExecutionFactory, Planner>, polled: Readiness<E>|
                {
                    &&& *held == old(self).supergraph_service
                    &&& *final(held) == final(self).supergraph_service
                    &&& #[trigger] call_ensures(poll, (held, cx), polled)
                    &&& Self::reports(polled, into, readiness)
                },
    {
        match poll(&mut self.supergraph_service, cx) {
            Readiness::Pending => Readiness::Pending,
            Readiness::Ready => Readiness::Ready,
            Readiness::Failed(error) => Readiness::Failed(into(error)),
        }
    }
}

impl<ExecutionFactory: Clone, Planner: Clone> Clone for TransportService<
    ExecutionFactory,
    Planner,
> {
    fn clone(&self) -> (copy: Self)
        ensures
            self.supergraph_service.copied_as(copy.supergraph_service),
    {
        TransportService { supergraph_service: self.supergraph_service.clone() }
    }
}

impl<ExecutionFactory: Clone, Planner: Clone> TransportService<ExecutionFactory, Planner> {
    /// Hands `req` on, by `dispatch`, to the service that was here when the call came. That is the
    /// one that was polled ready. A clone takes its place for the calls that follow.
    pub fn call<Request, Reply, F>(&mut self, req: Request, dispatch: F) -> (reply: Reply)
        where F: FnOnce(SupergraphService<ExecutionFactory, Planner>, Request) -> Reply,
        requires
            call_requires(dispatch, (old(self).supergraph_service, req)),
        ensures
            call_ensures(dispatch, (old(self).supergraph_service, req), reply),
            old(self).supergraph_service.copied_as(final(self).supergraph_service),
    {
        let mut supergraph_service = self.supergraph_service.clone();
        std::mem::swap(&mut supergraph_service, &mut self.supergraph_service);
        dispatch(supergraph_service, req)
    }
}

} // verus!
