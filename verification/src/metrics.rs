//! The registries into which a client reports. The library carries them from
//! the factory to the client state; it records nothing itself.

use std::sync::Arc;
use vstd::prelude::*;
use witchcraft_metrics::MetricRegistry;

verus! {

/// `witchcraft_metrics::MetricRegistry`: a registry of metrics. Nothing is known of it.
#[verifier::external_type_specification]
#[verifier::external_body]
pub struct ExMetricRegistry(witchcraft_metrics::MetricRegistry);

/// The registry in which the performance of each host is tracked.
pub struct HostMetricsRegistry {
    registry: Arc<MetricRegistry>,
}

impl HostMetricsRegistry {
    /// The registry that holds the records.
    pub closed spec fn backing(&self) -> Arc<MetricRegistry> {
        self.registry
    }

    /// A host registry that keeps its records in `registry`.
    pub fn new(registry: Arc<MetricRegistry>) -> (r: HostMetricsRegistry)
        ensures
            r.backing() == registry,
    {
        HostMetricsRegistry { registry }
    }

    /// The registry that holds the records.
    pub fn registry(&self) -> (r: &Arc<MetricRegistry>)
        ensures
            *r == self.backing(),
    {
        &self.registry
    }
}

} // verus!
