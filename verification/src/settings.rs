//! What a router is built from: its schema and its configuration.

use vstd::prelude::*;

verus! {

/// The schema that the router serves.
pub struct Schema {
    /// What the schema is known by, if it is known by anything.
    pub schema_id: Option<String>,
    /// The schema definition.
    pub sdl: String,
}

/// What is configured of the transport phase.
pub struct TransportConfiguration {
    /// Whether introspection queries are answered.
    pub introspection: bool,
    /// Where the shared plan caches are, if any are used.
    pub cache_redis_urls: Option<Vec<String>>,
}

/// What is configured of the router.
pub struct Configuration {
    /// The transport phase.
    pub transport: TransportConfiguration,
    /// The whole configuration as it was written.
    pub source: String,
}

/// The strings of a list that may be there.
pub open spec fn strings_of(list: Option<Vec<String>>) -> Option<Seq<String>> {
    match list {
        Some(strings) => Some(strings@),
        None => None,
    }
}

impl TransportConfiguration {
    /// The URLs of the shared plan caches.
    pub fn cache(&self) -> (urls: Option<Vec<String>>)
        ensures
            strings_of(urls) == strings_of(self.cache_redis_urls),
    {
        match &self.cache_redis_urls {
            Some(urls) => {
                let copy = urls.clone();
                assert(copy@ =~= urls@);
                Some(copy)
            },
            None => None,
        }
    }
}

impl Configuration {
    /// What holds where nothing is configured: no introspection and no shared cache.
    pub open spec fn is_default(self) -> bool {
        &&& !self.transport.introspection
        &&& self.transport.cache_redis_urls is None
        &&& self.source@ == Seq::<char>::empty()
    }
}

impl Default for Configuration {
    fn default() -> (configuration: Self)
        ensures
            configuration.is_default(),
    {
        Configuration {
            transport: TransportConfiguration { introspection: false, cache_redis_urls: None },
            source: String::new(),
        }
    }
}

} // verus!
