# transport_service

The transport phase of a GraphQL router's request lifecycle, verified with Verus: the service that
requests meet first, the plugins that wrap it, and the builder that brings a schema, plugins and
subgraph services together.

- `src/plugins.rs`: the plugins by name, in the order of their registration (on `indexmap`).
- `src/plugin.rs`: what a plugin offers.
- `src/endpoints.rs`: the web endpoints of plugins, merged address by address (on `multimap`).
- `src/limit.rs`: the limit of the plan cache, from the environment variable's value.
- `src/settings.rs`: schema and configuration.
- `src/service.rs`: the transport service and what it is made of.
- `src/builder.rs`: the builder and the steps of a build.
- `src/router.rs`: the router creator, which makes the service of a router.
- `src/laws.rs`: what holds of all of these together.

`app/` runs the library on `tower` services.
