//! Configuration and listing parameters shared by the service's handlers.

use vstd::prelude::*;

verus! {

/// Page size of a listing when the request names none.
pub const DEFAULT_LIMIT: i64 = 20;

/// Capacity of each cache when the configuration names none.
pub const DEFAULT_CACHE_CAPACITY: u64 = 10_000;

/// The page size of a listing when the request names none.
pub fn default_limit() -> (r: i64)
    ensures
        r == DEFAULT_LIMIT,
{
    DEFAULT_LIMIT
}

/// Cache configuration options.
#[derive(Debug, Clone, Copy, PartialEq, Eq)]
pub struct CacheConfig {
    pub enabled: bool,
    pub max_capacity: u64,
}

impl Default for CacheConfig {
    /// Caching on, with the default capacity.
    fn default() -> (r: CacheConfig)
        ensures
            r.enabled,
            r.max_capacity == DEFAULT_CACHE_CAPACITY,
    {
        CacheConfig { enabled: true, max_capacity: DEFAULT_CACHE_CAPACITY }
    }
}

/// Paging and status filter of an A/B test listing.
#[derive(Debug, Clone)]
pub struct ListAbTestsQuery {
    pub limit: i64,
    pub offset: i64,
    pub status: Option<String>,
}

/// Paging and status filter of a canary release listing.
#[derive(Debug, Clone)]
pub struct ListCanaryQuery {
    pub limit: i64,
    pub offset: i64,
    pub status: Option<String>,
}

/// Paging and filters of a performance metric listing.
#[derive(Debug, Clone)]
pub struct ListMetricsQuery {
    pub limit: i64,
    pub offset: i64,
    pub metric_type: Option<String>,
    pub function_name: Option<String>,
}

/// Paging and filters of a performance alert listing.
#[derive(Debug, Clone)]
pub struct ListAlertsQuery {
    pub limit: i64,
    pub offset: i64,
    pub resolved: Option<bool>,
    pub severity: Option<String>,
}

} // verus!
