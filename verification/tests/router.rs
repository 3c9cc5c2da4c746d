use std::sync::Arc;

use multimap::MultiMap;
use transport_service::endpoints::{merge_web_endpoints, Endpoint, ListenAddr};
use transport_service::plugin::DynPlugin;
use transport_service::plugins::Plugins;
use transport_service::router::{InnerService, RouterCreator, APOLLO_TRAFFIC_SHAPING};
use transport_service::service::SubgraphCreator;
use transport_service::settings::Schema;

#[derive(Clone)]
struct Tag {
    label: &'static str,
    shaping: Option<&'static str>,
    endpoints: Vec<(&'static str, &'static str, u64)>,
}

fn tag(label: &'static str) -> Tag {
    Tag { label, shaping: None, endpoints: Vec::new() }
}

impl DynPlugin for Tag {
    type Service = String;
    type TrafficShaping = &'static str;

    fn transport_service(&self, service: String) -> String {
        format!("{}({})", self.label, service)
    }

    fn web_endpoints(&self) -> MultiMap<ListenAddr, Endpoint> {
        let mut all = MultiMap::new();
        for (address, path, handler) in &self.endpoints {
            all.insert(
                address.to_string(),
                Endpoint { path: path.to_string(), handler: *handler },
            );
        }
        all
    }

    fn as_traffic_shaping(&self) -> Option<&&'static str> {
        self.shaping.as_ref()
    }
}

fn creator(plugins: Vec<(&str, Tag)>) -> RouterCreator<&'static str, Tag, u32> {
    let mut table = Plugins::new();
    for (name, plugin) in plugins {
        table = table.insert(name.to_string(), plugin);
    }
    let plugins = Arc::new(table);
    RouterCreator {
        query_planner_service: "planner",
        subgraph_creator: Arc::new(SubgraphCreator::new(Vec::new(), plugins.clone())),
        schema: Arc::new(Schema { schema_id: None, sdl: "sdl".to_string() }),
        plugins,
    }
}

fn made(creator: &RouterCreator<&'static str, Tag, u32>) -> String {
    creator.make(
        |shaping, core| {
            format!("{}[{}]", shaping, core.supergraph_service.query_planner_service)
        },
        |inner| match inner {
            InnerService::Shaped(shaped) => format!("box<{}>", shaped),
            InnerService::Plain(core) => {
                format!("box<{}>", core.supergraph_service.query_planner_service)
            }
        },
        |service| format!("presence({})", service),
    )
}

fn shaper(label: &'static str) -> Tag {
    Tag { label, shaping: Some("shaped"), endpoints: Vec::new() }
}

fn paths(all: &MultiMap<ListenAddr, Endpoint>, address: &str) -> Vec<(String, u64)> {
    all.get_vec(address)
        .map(|list| list.iter().map(|e| (e.path.clone(), e.handler)).collect())
        .unwrap_or_default()
}

fn path(path: &str, handler: u64) -> (String, u64) {
    (path.to_string(), handler)
}

#[test]
fn without_plugins_only_the_outermost_layer_is_added() {
    assert_eq!(made(&creator(vec![])), "presence(box<planner>)");
}

#[test]
fn the_first_plugin_is_the_outermost() {
    let creator = creator(vec![("one", tag("a")), ("two", tag("b")), ("three", tag("c"))]);
    assert_eq!(made(&creator), "presence(a(b(c(box<planner>))))");
}

#[test]
fn a_replaced_plugin_keeps_its_place() {
    let creator = creator(vec![("one", tag("a")), ("two", tag("b")), ("one", tag("c"))]);
    assert_eq!(made(&creator), "presence(c(b(box<planner>)))");
}

#[test]
fn traffic_is_shaped_inside_all_plugins() {
    assert_eq!(APOLLO_TRAFFIC_SHAPING, "apollo.traffic_shaping");
    let creator = creator(vec![
        ("one", tag("a")),
        ("apollo.traffic_shaping", shaper("s")),
        ("two", tag("b")),
    ]);
    assert_eq!(made(&creator), "presence(a(s(b(box<shaped[planner]>))))");
}

#[test]
fn a_plugin_under_another_name_does_not_shape() {
    let creator = creator(vec![("traffic", shaper("s"))]);
    assert_eq!(made(&creator), "presence(s(box<planner>))");
}

#[test]
fn a_plugin_of_the_name_that_is_not_the_shaper_does_not_shape() {
    let creator = creator(vec![("apollo.traffic_shaping", tag("t"))]);
    assert_eq!(made(&creator), "presence(t(box<planner>))");
}

#[test]
fn the_transport_service_holds_what_the_creator_holds() {
    let creator = creator(vec![("one", tag("a"))]);
    let result = creator.make(
        |_, _| (),
        |inner| match inner {
            InnerService::Shaped(()) => "shaped".to_string(),
            InnerService::Plain(core) => {
                let service = core.supergraph_service;
                let factory = service.execution_service_factory;
                assert!(Arc::ptr_eq(&service.schema, &creator.schema));
                assert!(Arc::ptr_eq(&factory.schema, &creator.schema));
                assert!(Arc::ptr_eq(&factory.plugins, &creator.plugins));
                assert!(Arc::ptr_eq(&factory.subgraph_creator, &creator.subgraph_creator));
                "core".to_string()
            }
        },
        |service| service,
    );
    assert_eq!(result, "a(core)");
}

#[test]
fn a_clone_of_a_creator_makes_the_same() {
    let creator = creator(vec![("one", tag("a")), ("two", tag("b"))]);
    let copy = creator.clone();
    assert!(Arc::ptr_eq(&copy.plugins, &creator.plugins));
    assert!(Arc::ptr_eq(&copy.schema, &creator.schema));
    assert!(Arc::ptr_eq(&copy.subgraph_creator, &creator.subgraph_creator));
    assert_eq!(made(&copy), made(&creator));
}

#[test]
fn web_endpoints_of_all_plugins_are_listed() {
    let one = Tag {
        label: "a",
        shaping: None,
        endpoints: vec![("127.0.0.1:9090", "/metrics", 1), ("127.0.0.1:8088", "/health", 2)],
    };
    let two = Tag { label: "b", shaping: None, endpoints: vec![] };
    let three = Tag {
        label: "c",
        shaping: None,
        endpoints: vec![
            ("127.0.0.1:9090", "/extra", 3),
            ("127.0.0.1:9090", "/more", 4),
            ("/tmp/socket", "/", 5),
        ],
    };
    let all = creator(vec![("one", one), ("two", two), ("three", three)]).web_endpoints();
    assert_eq!(
        paths(&all, "127.0.0.1:9090"),
        vec![path("/metrics", 1), path("/extra", 3), path("/more", 4)]
    );
    assert_eq!(paths(&all, "127.0.0.1:8088"), vec![path("/health", 2)]);
    assert_eq!(paths(&all, "/tmp/socket"), vec![path("/", 5)]);
    assert_eq!(all.keys().count(), 3);
}

#[test]
fn without_plugins_there_are_no_web_endpoints() {
    assert_eq!(creator(vec![]).web_endpoints().keys().count(), 0);
}

#[test]
fn parts_are_merged_in_their_order() {
    let part = |path: &str, handler: u64| {
        let mut map = MultiMap::new();
        map.insert("here".to_string(), Endpoint { path: path.to_string(), handler });
        map
    };
    let all = merge_web_endpoints(vec![part("/b", 1), part("/a", 2), part("/b", 3)]);
    assert_eq!(paths(&all, "here"), vec![path("/b", 1), path("/a", 2), path("/b", 3)]);
    assert_eq!(merge_web_endpoints(vec![]).keys().count(), 0);
}

#[test]
fn a_new_plugin_goes_inside_all_others() {
    let two = creator(vec![("one", tag("a")), ("two", tag("b"))]);
    let three = creator(vec![("one", tag("a")), ("two", tag("b")), ("new", tag("n"))]);
    assert_eq!(made(&two), "presence(a(b(box<planner>)))");
    assert_eq!(made(&three), "presence(a(b(n(box<planner>))))");
}

#[test]
fn merging_runs_of_parts_is_merging_all_parts() {
    let part = |address: &str, handler: u64| {
        let mut map = MultiMap::new();
        map.insert(address.to_string(), Endpoint { path: "/".to_string(), handler });
        map
    };
    let all = merge_web_endpoints(vec![part("x", 1), part("y", 2), part("x", 3), part("x", 4)]);
    let first = merge_web_endpoints(vec![part("x", 1), part("y", 2)]);
    let second = merge_web_endpoints(vec![part("x", 3), part("x", 4)]);
    let runs = merge_web_endpoints(vec![MultiMap::new(), first, second, MultiMap::new()]);
    for address in ["x", "y", "z"] {
        assert_eq!(paths(&all, address), paths(&runs, address));
    }
    assert_eq!(paths(&all, "x"), vec![path("/", 1), path("/", 3), path("/", 4)]);
    assert_eq!(all.keys().count(), runs.keys().count());
}

#[test]
fn an_address_with_an_empty_list_is_still_listed() {
    let mut empty: MultiMap<ListenAddr, Endpoint> = MultiMap::new();
    empty.insert_many("idle".to_string(), Vec::new());
    let all = merge_web_endpoints(vec![empty]);
    assert!(all.contains_key("idle"));
    assert_eq!(paths(&all, "idle"), vec![]);
}

/// Knows how many clones lie between it and the first.
struct Generation(u32);

impl Clone for Generation {
    fn clone(&self) -> Self {
        Generation(self.0 + 1)
    }
}

#[test]
fn a_router_and_a_clone_get_clones_of_the_planner() {
    let given = creator(vec![("one", tag("a"))]);
    let counted: RouterCreator<Generation, Tag, u32> = RouterCreator {
        query_planner_service: Generation(0),
        subgraph_creator: given.subgraph_creator,
        schema: given.schema,
        plugins: given.plugins,
    };
    let generation = |creator: &RouterCreator<Generation, Tag, u32>| {
        creator.make(
            |_, _| (),
            |inner| match inner {
                InnerService::Shaped(()) => "shaped".to_string(),
                InnerService::Plain(core) => {
                    core.supergraph_service.query_planner_service.0.to_string()
                }
            },
            |service| service,
        )
    };
    assert_eq!(generation(&counted), "a(1)");
    assert_eq!(generation(&counted), "a(1)");
    assert_eq!(counted.query_planner_service.0, 0);
    let copy = counted.clone();
    assert_eq!(copy.query_planner_service.0, 1);
    assert_eq!(generation(&copy), "a(2)");
}
