//! What a plugin offers to the router.

use multimap::MultiMap;
use vstd::prelude::*;

use crate::endpoints::{Endpoint, ListenAddr};

verus! {

/// A plugin, as the router sees it. Nothing is required of what an implementation does: contracts
/// speak of the calls that were made and of what came back.
pub trait DynPlugin {
    /// The boxed service that plugins wrap.
    type Service;

    /// The plugin that shapes traffic.
    type TrafficShaping;

    /// Wraps the service of the transport phase.
    fn transport_service(&self, service: Self::Service) -> Self::Service;

    /// The web endpoints that this plugin serves.
    fn web_endpoints(&self) -> MultiMap<ListenAddr, Endpoint>;

    /// This plugin as the one that shapes traffic, if that is what it is.
    fn as_traffic_shaping(&self) -> Option<&Self::TrafficShaping>;
}

/// `plugin`, asked to wrap `inner`, may answer with `outer`.
pub open spec fn wraps<P: DynPlugin>(plugin: P, inner: P::Service, outer: P::Service) -> bool {
    call_ensures(P::transport_service, (&plugin, inner), outer)
}

/// `plugin`, asked for its web endpoints, may answer with `endpoints`.
pub open spec fn serves<P: DynPlugin>(plugin: P, endpoints: MultiMap<ListenAddr, Endpoint>) -> bool {
    call_ensures(P::web_endpoints, (&plugin,), endpoints)
}

/// `plugin`, asked whether it shapes traffic, may answer with `shaping`.
pub open spec fn answers_as<P: DynPlugin>(plugin: P, shaping: Option<&P::TrafficShaping>) -> bool {
    call_ensures(P::as_traffic_shaping, (&plugin,), shaping)
}

} // verus!
