use std::sync::Arc;

use transport_service::builder::{
    BuildStep, PlannerRequest, PluggableTransportServiceBuilder, ServiceBuildError,
};
use transport_service::settings::{Configuration, Schema, TransportConfiguration};

type Builder = PluggableTransportServiceBuilder<&'static str, u32>;
type Step = BuildStep<&'static str, &'static str, u32>;

fn schema() -> Arc<Schema> {
    Arc::new(Schema {
        schema_id: Some("id-1".to_string()),
        sdl: "type Query { me: String }".to_string(),
    })
}

fn configuration(introspection: bool, urls: Option<Vec<&str>>) -> Arc<Configuration> {
    Arc::new(Configuration {
        transport: TransportConfiguration {
            introspection,
            cache_redis_urls: urls.map(|urls| urls.into_iter().map(String::from).collect()),
        },
        source: "transport: {}".to_string(),
    })
}

fn plugin_names(plugins: &transport_service::plugins::Plugins<&'static str>) -> Vec<(String, String)> {
    (0..plugins.len())
        .map(|index| plugins.get_index(index).unwrap())
        .map(|(name, plugin)| (name.clone(), plugin.to_string()))
        .collect()
}

fn names(pairs: &[(&str, &str)]) -> Vec<(String, String)> {
    pairs.iter().map(|(a, b)| (a.to_string(), b.to_string())).collect()
}

#[test]
fn a_new_builder_holds_only_the_schema() {
    let schema = schema();
    let builder: Builder = PluggableTransportServiceBuilder::new(schema.clone());
    assert!(Arc::ptr_eq(&builder.schema, &schema));
    assert_eq!(builder.plugins.len(), 0);
    assert!(builder.subgraph_services.is_empty());
    assert!(builder.configuration.is_none());
}

#[test]
fn additions_are_kept_in_order() {
    let builder: Builder = PluggableTransportServiceBuilder::new(schema())
        .with_dyn_plugin("one".to_string(), "p1")
        .with_subgraph_service("user", 1)
        .with_dyn_plugin("two".to_string(), "p2")
        .with_subgraph_service("orga", 2)
        .with_subgraph_service("user", 3)
        .with_dyn_plugin("one".to_string(), "p3");
    assert_eq!(plugin_names(&builder.plugins), names(&[("one", "p3"), ("two", "p2")]));
    let services: Vec<(&str, u32)> =
        builder.subgraph_services.iter().map(|(name, maker)| (name.as_str(), **maker)).collect();
    assert_eq!(services, vec![("user", 1), ("orga", 2), ("user", 3)]);
}

#[test]
fn the_last_configuration_wins() {
    let second = configuration(true, None);
    let builder: Builder = PluggableTransportServiceBuilder::new(schema())
        .with_configuration(configuration(false, None))
        .with_configuration(second.clone());
    assert!(Arc::ptr_eq(builder.configuration.as_ref().unwrap(), &second));
}

#[test]
fn without_configuration_the_planner_comes_first() {
    let schema = schema();
    let builder: Builder = PluggableTransportServiceBuilder::new(schema.clone());
    let step: Step = builder.build(None);
    match step {
        BuildStep::Planner(request, pending) => {
            assert!(Arc::ptr_eq(&request.schema, &schema));
            assert!(request.introspection.is_none());
            assert!(!request.configuration.transport.introspection);
            assert!(request.configuration.transport.cache_redis_urls.is_none());
            assert_eq!(request.configuration.source, "");
            assert_eq!(pending.plan_cache_limit, 100);
            assert!(pending.redis_urls.is_none());
        }
        BuildStep::Introspection(_, _) => panic!("no introspection is configured"),
    }
}

#[test]
fn introspection_comes_first_where_it_is_configured() {
    let schema = schema();
    let given = configuration(true, Some(vec!["redis://one", "redis://two"]));
    let builder: Builder = PluggableTransportServiceBuilder::new(schema.clone())
        .with_configuration(given.clone());
    let step: Step = builder.build(Some("25".to_string()));
    let (request, pending): (PlannerRequest<&'static str>, _) = match step {
        BuildStep::Introspection(configuration, pending) => {
            assert!(Arc::ptr_eq(&configuration, &given));
            pending.introspected("introspection data")
        }
        BuildStep::Planner(_, _) => panic!("introspection is configured"),
    };
    assert!(Arc::ptr_eq(&request.schema, &schema));
    assert_eq!(request.introspection.as_deref(), Some(&"introspection data"));
    assert!(Arc::ptr_eq(&request.configuration, &given));
    assert_eq!(pending.plan_cache_limit, 25);
    assert_eq!(
        pending.redis_urls,
        Some(vec!["redis://one".to_string(), "redis://two".to_string()])
    );
}

#[test]
fn a_planner_that_fails_ends_the_build() {
    let builder: Builder = PluggableTransportServiceBuilder::new(schema());
    let step: Step = builder.build(None);
    let pending = match step {
        BuildStep::Planner(_, pending) => pending,
        BuildStep::Introspection(_, _) => panic!("no introspection is configured"),
    };
    let planner: Result<u8, &str> = Err("the schema is not valid");
    match pending.planned(planner) {
        Err(ServiceBuildError::QueryPlannerError(error)) => {
            assert_eq!(error, "the schema is not valid")
        }
        Ok(_) => panic!("there is no planner"),
    }
}

#[test]
fn a_build_gives_all_parts_to_the_creator() {
    let schema = schema();
    let builder: Builder = PluggableTransportServiceBuilder::new(schema.clone())
        .with_configuration(configuration(false, Some(vec!["redis://one"])))
        .with_dyn_plugin("first".to_string(), "p1")
        .with_dyn_plugin("second".to_string(), "p2")
        .with_subgraph_service("user", 4);
    let step: Step = builder.build(Some("not a number".to_string()));
    let pending = match step {
        BuildStep::Planner(_, pending) => pending,
        BuildStep::Introspection(_, _) => panic!("no introspection is configured"),
    };
    let planner: Result<u8, &str> = Ok(5);
    let (request, pending) = match pending.planned(planner) {
        Ok(next) => next,
        Err(_) => panic!("there is a planner"),
    };
    assert_eq!(request.planner, 5);
    assert_eq!(request.plan_cache_limit, 100);
    assert_eq!(request.schema_id, Some("id-1".to_string()));
    assert_eq!(request.redis_urls, Some(vec!["redis://one".to_string()]));
    let creator = pending.cached("cached planner");
    assert_eq!(creator.query_planner_service, "cached planner");
    assert!(Arc::ptr_eq(&creator.schema, &schema));
    assert_eq!(plugin_names(&creator.plugins), names(&[("first", "p1"), ("second", "p2")]));
    assert!(Arc::ptr_eq(&creator.plugins, &creator.subgraph_creator.plugins));
    assert_eq!(creator.subgraph_creator.services.len(), 1);
    assert_eq!(creator.subgraph_creator.services[0].0, "user");
    assert_eq!(*creator.subgraph_creator.services[0].1, 4);
}

#[test]
fn a_schema_without_identity_gives_none_to_the_cache() {
    let schema = Arc::new(Schema { schema_id: None, sdl: String::new() });
    let builder: Builder = PluggableTransportServiceBuilder::new(schema);
    let step: Step = builder.build(None);
    let pending = match step {
        BuildStep::Planner(_, pending) => pending,
        BuildStep::Introspection(_, _) => panic!("no introspection is configured"),
    };
    let planner: Result<u8, &str> = Ok(5);
    match pending.planned(planner) {
        Ok((request, _)) => assert_eq!(request.schema_id, None),
        Err(_) => panic!("there is a planner"),
    }
}

#[test]
fn the_cache_urls_are_those_of_the_configuration() {
    let urls = TransportConfiguration {
        introspection: false,
        cache_redis_urls: Some(vec!["a".to_string(), "b".to_string()]),
    };
    assert_eq!(urls.cache(), Some(vec!["a".to_string(), "b".to_string()]));
    let none = TransportConfiguration { introspection: true, cache_redis_urls: None };
    assert_eq!(none.cache(), None);
}

#[test]
fn the_order_of_different_additions_does_not_matter() {
    let given = configuration(true, None);
    let one: Builder = PluggableTransportServiceBuilder::new(schema())
        .with_dyn_plugin("p".to_string(), "plugin")
        .with_subgraph_service("s", 1)
        .with_configuration(given.clone());
    let other: Builder = PluggableTransportServiceBuilder::new(schema())
        .with_configuration(given.clone())
        .with_subgraph_service("s", 1)
        .with_dyn_plugin("p".to_string(), "plugin");
    assert_eq!(plugin_names(&one.plugins), names(&[("p", "plugin")]));
    assert_eq!(plugin_names(&one.plugins), plugin_names(&other.plugins));
    assert_eq!(one.subgraph_services, vec![("s".to_string(), Arc::new(1))]);
    assert_eq!(one.subgraph_services, other.subgraph_services);
    assert!(Arc::ptr_eq(one.configuration.as_ref().unwrap(), &given));
    assert!(Arc::ptr_eq(other.configuration.as_ref().unwrap(), &given));
}
