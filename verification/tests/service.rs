use std::sync::Arc;

use transport_service::service::{Readiness, SupergraphService, TransportService};
use transport_service::settings::Schema;

/// Knows how many clones lie between it and the first.
struct Generation(u32);

impl Clone for Generation {
    fn clone(&self) -> Self {
        Generation(self.0 + 1)
    }
}

fn service() -> TransportService<&'static str, Generation> {
    let schema = Arc::new(Schema { schema_id: None, sdl: "sdl".to_string() });
    TransportService::new(SupergraphService::new(Generation(0), "factory", schema))
}

#[test]
fn a_new_service_holds_what_it_hands_requests_to() {
    let service = service();
    assert_eq!(service.supergraph_service.query_planner_service.0, 0);
    assert_eq!(service.supergraph_service.execution_service_factory, "factory");
    assert_eq!(service.supergraph_service.schema.sdl, "sdl");
}

#[test]
fn a_call_goes_to_the_service_that_was_ready_and_leaves_a_clone() {
    let mut service = service();
    let reply = service.call(7, |ready, request: u32| (ready.query_planner_service.0, request));
    assert_eq!(reply, (0, 7));
    assert_eq!(service.supergraph_service.query_planner_service.0, 1);
    let reply = service.call(8, |ready, request: u32| (ready.query_planner_service.0, request));
    assert_eq!(reply, (1, 8));
    assert_eq!(service.supergraph_service.query_planner_service.0, 2);
    assert_eq!(service.supergraph_service.execution_service_factory, "factory");
}

#[test]
fn a_clone_clones_the_parts() {
    let service = service();
    let copy = service.clone();
    assert_eq!(copy.supergraph_service.query_planner_service.0, 1);
    assert_eq!(copy.supergraph_service.execution_service_factory, "factory");
    assert!(Arc::ptr_eq(&copy.supergraph_service.schema, &service.supergraph_service.schema));
}

/// Counts the polls that reached this planner.
#[derive(Clone)]
struct Polled(u32);

fn polled_service() -> TransportService<&'static str, Polled> {
    let schema = Arc::new(Schema { schema_id: None, sdl: "sdl".to_string() });
    TransportService::new(SupergraphService::new(Polled(0), "factory", schema))
}

fn answer(
    service: &mut TransportService<&'static str, Polled>,
    answer: Readiness<u8>,
) -> Readiness<String> {
    service.poll_ready(
        (),
        |held: &mut SupergraphService<&'static str, Polled>, ()| {
            held.query_planner_service.0 += 1;
            answer
        },
        |error| format!("error {}", error),
    )
}

#[test]
fn readiness_is_passed_on() {
    let mut service = polled_service();
    assert!(matches!(answer(&mut service, Readiness::Pending), Readiness::Pending));
    assert!(matches!(answer(&mut service, Readiness::Ready), Readiness::Ready));
}

#[test]
fn an_error_is_turned_into_the_reported_kind() {
    match answer(&mut polled_service(), Readiness::Failed(5)) {
        Readiness::Failed(error) => assert_eq!(error, "error 5"),
        _ => panic!("the service failed"),
    }
}

#[test]
fn the_held_service_is_polled_once_and_stays() {
    let mut service = polled_service();
    let schema = service.supergraph_service.schema.clone();
    answer(&mut service, Readiness::Pending);
    assert_eq!(service.supergraph_service.query_planner_service.0, 1);
    answer(&mut service, Readiness::Ready);
    assert_eq!(service.supergraph_service.query_planner_service.0, 2);
    assert_eq!(service.supergraph_service.execution_service_factory, "factory");
    assert!(Arc::ptr_eq(&service.supergraph_service.schema, &schema));
}

#[test]
fn the_poll_gets_the_context_of_the_caller() {
    let mut service = polled_service();
    let mut woken = Vec::new();
    let readiness = service.poll_ready(
        &mut woken,
        |held: &mut SupergraphService<&'static str, Polled>, cx: &mut Vec<u32>| {
            cx.push(held.query_planner_service.0);
            Readiness::<u8>::Pending
        },
        |error| error,
    );
    assert!(matches!(readiness, Readiness::Pending));
    assert_eq!(woken, vec![0]);
}

#[test]
fn the_service_that_was_polled_ready_gets_the_request() {
    let mut service = polled_service();
    answer(&mut service, Readiness::Ready);
    let called = service.call((), |ready, ()| ready.query_planner_service.0);
    assert_eq!(called, 1);
}

#[test]
fn exact_clones_keep_the_service_as_it_was() {
    let schema = Arc::new(Schema { schema_id: None, sdl: "sdl".to_string() });
    let mut service =
        TransportService::new(SupergraphService::new("planner", "factory", schema.clone()));
    service.call((), |_, ()| ());
    assert_eq!(service.supergraph_service.query_planner_service, "planner");
    assert_eq!(service.supergraph_service.execution_service_factory, "factory");
    assert!(Arc::ptr_eq(&service.supergraph_service.schema, &schema));
}
