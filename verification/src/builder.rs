//! The builder that brings a schema, plugins and subgraph services together into a router creator.
//!
//! Building waits for work that is done elsewhere: the data for introspection, the query planner
//! and its cache. Each method here takes the outcome of one such piece of work and says what is to
//! be done next, and with what.

use std::sync::Arc;

use vstd::prelude::*;

use crate::limit::{limit_for, plan_cache_limit, text_of};
use crate::plugins::{inserted, unique_names, Plugins};
use crate::router::RouterCreator;
use crate::service::SubgraphCreator;
use crate::settings::{strings_of, Configuration, Schema};

verus! {

/// Why no router creator could be built.
pub enum ServiceBuildError<E> {
    /// The query planner could not be made.
    QueryPlannerError(E),
}

/// What a router creator is built from.
pub struct PluggableTransportServiceBuilder<P, M> {
    /// The schema to serve.
    pub schema: Arc<Schema>,
    /// The plugins, in order.
    pub plugins: Plugins<P>,
    /// The maker of each subgraph's service, with the subgraph's name, in order.
    pub subgraph_services: Vec<(String, Arc<M>)>,
    /// The configuration, where one was given.
    pub configuration: Option<Arc<Configuration>>,
}

/// What the query planner is to be made from.
pub struct PlannerRequest<I> {
    /// The schema to plan for.
    pub schema: Arc<Schema>,
    /// The data for introspection, where queries for it are answered.
    pub introspection: Option<Arc<I>>,
    /// The configuration.
    pub configuration: Arc<Configuration>,
}

/// What the planner's cache is to be made from.
pub struct CacheRequest<B> {
    /// The planner whose plans are kept.
    pub planner: B,
    /// How many plans are kept.
    pub plan_cache_limit: usize,
    /// What the schema is known by.
    pub schema_id: Option<String>,
    /// Where the shared caches are, if any are used.
    pub redis_urls: Option<Vec<String>>,
}

/// A build that waits for the data for introspection.
pub struct PendingIntrospection<P, M> {
    /// The configuration that the planner will get.
    pub configuration: Arc<Configuration>,
    /// The rest of the build.
    pub pending: PendingPlanner<P, M>,
}

/// A build that waits for the query planner.
pub struct PendingPlanner<P, M> {
    /// How many plans are to be kept.
    pub plan_cache_limit: usize,
    /// Where the shared caches are, if any are used.
    pub redis_urls: Option<Vec<String>>,
    /// The rest of the build.
    pub pending: PendingRouter<P, M>,
}

/// A build that waits for the planner's cache.
pub struct PendingRouter<P, M> {
    /// The schema to serve.
    pub schema: Arc<Schema>,
    /// The plugins, in order.
    pub plugins: Plugins<P>,
    /// The maker of each subgraph's service.
    pub subgraph_services: Vec<(String, Arc<M>)>,
}

/// What is to be done first.
pub enum BuildStep<I, P, M> {
    /// Gather the data for introspection, as this configuration says.
    Introspection(Arc<Configuration>, PendingIntrospection<P, M>),
    /// Make the query planner.
    Planner(PlannerRequest<I>, PendingPlanner<P, M>),
}

/// The names and makers of a list of subgraph services.
pub open spec fn registered<M>(services: Seq<(String, Arc<M>)>) -> Seq<(Seq<char>, M)> {
    services.map_values(|service: (String, Arc<M>)| (service.0@, *service.1))
}

/// What a builder holds.
pub struct BuilderParts<P, M> {
    /// The schema to serve.
    pub schema: Arc<Schema>,
    /// The plugins with their names, in order.
    pub plugins: Seq<(Seq<char>, P)>,
    /// The maker of each subgraph's service, with the subgraph's name, in order.
    pub subgraph_services: Seq<(Seq<char>, M)>,
    /// The configuration, where one was given.
    pub configuration: Option<Arc<Configuration>>,
}

impl<P, M> BuilderParts<P, M> {
    /// These parts with one more plugin, or with another one in the place of the plugin that went
    /// by the same name.
    pub open spec fn with_plugin(self, name: Seq<char>, plugin: P) -> Self {
        BuilderParts { plugins: inserted(self.plugins, name, plugin), ..self }
    }

    /// These parts with one more subgraph service, behind all others.
    pub open spec fn with_subgraph(self, name: Seq<char>, service_maker: M) -> Self {
        BuilderParts {
            subgraph_services: self.subgraph_services.push((name, service_maker)),
            ..self
        }
    }

    /// These parts with this configuration in place of any other.
    pub open spec fn configured(self, configuration: Arc<Configuration>) -> Self {
        BuilderParts { configuration: Some(configuration), ..self }
    }
}

impl<P, M> View for PluggableTransportServiceBuilder<P, M> {
    type V = BuilderParts<P, M>;

    open spec fn view(&self) -> BuilderParts<P, M> {
        BuilderParts {
            schema: self.schema,
            plugins: self.plugins@,
            subgraph_services: registered(self.subgraph_services@),
            configuration: self.configuration,
        }
    }
}

/// `used` is the configuration that was given, or the default where none was.
pub open spec fn in_effect(given: Option<Arc<Configuration>>, used: Configuration) -> bool {
    match given {
        Some(configuration) => used == *configuration,
        None => used.is_default(),
    }
}

impl<P, M> PluggableTransportServiceBuilder<P, M> {
    /// A builder for `schema`, with no plugins, no subgraph services and no configuration.
    pub fn new(schema: Arc<Schema>) -> (builder: Self)
        ensures
            builder@.schema == schema,
            builder@.plugins.len() == 0,
            builder@.subgraph_services.len() == 0,
            builder@.configuration is None,
    {
        PluggableTransportServiceBuilder {
            schema,
            plugins: Plugins::new(),
            subgraph_services: Vec::new(),
            configuration: None,
        }
    }

    /// Adds a plugin. One that was added before under the same name gives its place to this one.
    pub fn with_dyn_plugin(self, plugin_name: String, plugin: P) -> (builder: Self)
        ensures
            builder@ == self@.with_plugin(plugin_name@, plugin),
            unique_names(builder@.plugins),
    {
        PluggableTransportServiceBuilder {
            schema: self.schema,
            plugins: self.plugins.insert(plugin_name, plugin),
            subgraph_services: self.subgraph_services,
            configuration: self.configuration,
        }
    }

    /// Adds the maker of a subgraph's service, behind those that were added before.
    pub fn with_subgraph_service(self, name: &str, service_maker: M) -> (builder: Self)
        ensures
            builder@ == self@.with_subgraph(name@, service_maker),
    {
        let mut subgraph_services = self.subgraph_services;
        subgraph_services.push((name.to_owned(), Arc::new(service_maker)));
        assert(registered(subgraph_services@) =~= registered(self.subgraph_services@).push(
            (name@, service_maker),
        ));
        PluggableTransportServiceBuilder {
            schema: self.schema,
            plugins: self.plugins,
            subgraph_services,
            configuration: self.configuration,
        }
    }

    /// Sets the configuration, in place of any that was set before.
    pub fn with_configuration(self, configuration: Arc<Configuration>) -> (builder: Self)
        ensures
            builder@ == self@.configured(configuration),
    {
        PluggableTransportServiceBuilder {
            schema: self.schema,
            plugins: self.plugins,
            subgraph_services: self.subgraph_services,
            configuration: Some(configuration),
        }
    }

    /// `pending` is a build of this builder's parts that waits for the query planner.
    pub open spec fn waits_for_planner(
        self,
        limit_value: Option<Seq<char>>,
        configuration: Configuration,
        pending: PendingPlanner<P, M>,
    ) -> bool {
        &&& pending.plan_cache_limit == limit_for(limit_value)
        &&& strings_of(pending.redis_urls) == strings_of(configuration.transport.cache_redis_urls)
        &&& pending.pending.schema == self.schema
        &&& pending.pending.plugins == self.plugins
        &&& pending.pending.subgraph_services == self.subgraph_services
    }

    /// `step` is where the build of this builder starts: with introspection where the configuration
    /// in effect asks for it, and with the planner where it does not.
    pub open spec fn starts_with<I>(
        self,
        limit_value: Option<Seq<char>>,
        step: BuildStep<I, P, M>,
    ) -> bool {
        match step {
            BuildStep::Introspection(configuration, pending) => {
                &&& in_effect(self.configuration, *configuration)
                &&& configuration.transport.introspection
                &&& pending.configuration == configuration
                &&& self.waits_for_planner(limit_value, *configuration, pending.pending)
            },
            BuildStep::Planner(request, pending) => {
                &&& in_effect(self.configuration, *request.configuration)
                &&& !request.configuration.transport.introspection
                &&& request.introspection is None
                &&& request.schema == self.schema
                &&& self.waits_for_planner(limit_value, *request.configuration, pending)
            },
        }
    }

    /// Starts to build. `limit_value` is the value of the environment variable for the plan cache's
    /// limit, where it is set.
    pub fn build<I>(self, limit_value: Option<String>) -> (step: BuildStep<I, P, M>)
        ensures
            self.starts_with(text_of(limit_value), step),
    {
        let configuration: Arc<Configuration> = self.configuration.unwrap_or_default();
        let plan_cache_limit: usize = plan_cache_limit(limit_value);
        let redis_urls = configuration.transport.cache();
        let introspection = configuration.transport.introspection;
        let schema = self.schema.clone();
        let pending = PendingPlanner {
            plan_cache_limit,
            redis_urls,
            pending: PendingRouter {
                schema: self.schema,
                plugins: self.plugins,
                subgraph_services: self.subgraph_services,
            },
        };
        if introspection {
            BuildStep::Introspection(
                configuration.clone(),
                PendingIntrospection { configuration, pending },
            )
        } else {
            BuildStep::Planner(
                PlannerRequest { schema, introspection: None, configuration },
                pending,
            )
        }
    }
}

impl<P, M> PendingIntrospection<P, M> {
    /// `request` is what the planner is to be made from, and `pending` waits for it.
    pub open spec fn goes_on<I>(
        self,
        introspection: I,
        request: PlannerRequest<I>,
        pending: PendingPlanner<P, M>,
    ) -> bool {
        &&& request.schema == self.pending.pending.schema
        &&& request.introspection matches Some(given)
        &&& *given == introspection
        &&& request.configuration == self.configuration
        &&& pending == self.pending
    }

    /// Goes on with the data for introspection: the planner is to be made, with that data.
    pub fn introspected<I>(self, introspection: I) -> (next: (
        PlannerRequest<I>,
        PendingPlanner<P, M>,
    ))
        ensures
            self.goes_on(introspection, next.0, next.1),
    {
        let request = PlannerRequest {
            schema: self.pending.pending.schema.clone(),
            introspection: Some(Arc::new(introspection)),
            configuration: self.configuration,
        };
        (request, self.pending)
    }
}

impl<P, M> PendingPlanner<P, M> {
    /// `request` is what the planner's cache is to be made from, and `pending` waits for it.
    pub open spec fn goes_on<B>(
        self,
        planner: B,
        request: CacheRequest<B>,
        pending: PendingRouter<P, M>,
    ) -> bool {
        &&& request.planner == planner
        &&& request.plan_cache_limit == self.plan_cache_limit
        &&& request.schema_id == self.pending.schema.schema_id
        &&& request.redis_urls == self.redis_urls
        &&& pending == self.pending
    }

    /// Goes on with the planner: its cache is to be made. Where there is no planner, its error ends
    /// the build.
    pub fn planned<B, E>(self, planner: Result<B, E>) -> (next: Result<
        (CacheRequest<B>, PendingRouter<P, M>),
        ServiceBuildError<E>,
    >)
        ensures
            match planner {
                Ok(planner) => next matches Ok((request, pending)) && self.goes_on(
                    planner,
                    request,
                    pending,
                ),
                Err(error) => next matches Err(ServiceBuildError::QueryPlannerError(reason))
                    && reason == error,
            },
    {
        match planner {
            Ok(planner) => {
                let schema_id = self.pending.schema.schema_id.clone();
                let request = CacheRequest {
                    planner,
                    plan_cache_limit: self.plan_cache_limit,
                    schema_id,
                    redis_urls: self.redis_urls,
                };
                Ok((request, self.pending))
            },
            Err(error) => Err(ServiceBuildError::QueryPlannerError(error)),
        }
    }
}

impl<P, M> PendingRouter<P, M> {
    /// `creator` holds this planner and the parts of this build.
    pub open spec fn ends_with<Planner>(
        self,
        query_planner_service: Planner,
        creator: RouterCreator<Planner, P, M>,
    ) -> bool {
        &&& creator.query_planner_service == query_planner_service
        &&& creator.schema == self.schema
        &&& *creator.plugins == self.plugins
        &&& creator.subgraph_creator.services == self.subgraph_services
        &&& creator.subgraph_creator.plugins == creator.plugins
    }

    /// Ends the build with the planner behind its cache.
    pub fn cached<Planner>(self, query_planner_service: Planner) -> (creator: RouterCreator<
        Planner,
        P,
        M,
    >)
        ensures
            self.ends_with(query_planner_service, creator),
    {
        let plugins = Arc::new(self.plugins);
        let subgraph_creator = Arc::new(
            SubgraphCreator::new(self.subgraph_services, plugins.clone()),
        );
        RouterCreator { query_planner_service, subgraph_creator, schema: self.schema, plugins }
    }
}

} // verus!
