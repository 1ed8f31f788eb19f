//! The state of a client: everything that one version of a service's
//! configuration determines. A state is built once and never changed; a new
//! version of the configuration gives a new state.

use crate::config::copy_strings;
use crate::config::proxy_model;
use crate::config::texts;
use crate::config::ProxyConfig;
use crate::config::ProxyModel;
use crate::config::ServiceConfig;
use crate::config::ServiceModel;
use crate::metrics::HostMetricsRegistry;
use crate::retry::Idempotency;
use crate::retry::RetryPolicy;
use crate::retry::ServerQos;
use crate::retry::ServiceError;
use std::sync::Arc;
use vstd::prelude::*;
use witchcraft_metrics::MetricRegistry;

verus! {

/// The connect timeout where none is configured, in milliseconds.
pub const DEFAULT_CONNECT_TIMEOUT: u64 = 10000;

/// The read timeout where none is configured, in milliseconds.
pub const DEFAULT_READ_TIMEOUT: u64 = 300000;

/// The write timeout where none is configured, in milliseconds.
pub const DEFAULT_WRITE_TIMEOUT: u64 = 300000;

/// The number of retries where none is configured.
pub const DEFAULT_MAX_NUM_RETRIES: u32 = 4;

/// The base delay of the backoff where none is configured, in milliseconds.
pub const DEFAULT_BACKOFF_BASE: u64 = 250;

/// The cap of the backoff where none is configured, in milliseconds.
pub const DEFAULT_BACKOFF_CAP: u64 = 10000;

/// The name and version under which a client announces itself.
#[derive(Clone, Debug, PartialEq, Eq)]
pub struct UserAgent {
    pub name: String,
    pub version: String,
}

impl UserAgent {
    /// A copy of the user agent.
    pub fn copy(&self) -> (c: UserAgent)
        ensures
            c == *self,
    {
        UserAgent { name: self.name.clone(), version: self.version.clone() }
    }
}

/// Why no client state could be built.
#[derive(Clone, Copy, Debug, PartialEq, Eq, Structural)]
pub enum BuildError {
    /// No user agent was set.
    MissingUserAgent,
}

/// The settings from which a client state is built.
pub struct Builder {
    pub uris: Vec<String>,
    pub connect_timeout: Option<u64>,
    pub read_timeout: Option<u64>,
    pub write_timeout: Option<u64>,
    pub max_num_retries: Option<u32>,
    pub backoff_base: Option<u64>,
    pub backoff_cap: Option<u64>,
    pub proxy: Option<ProxyConfig>,
    pub user_agent: Option<UserAgent>,
    pub metrics: Option<Arc<MetricRegistry>>,
    pub host_metrics: Option<Arc<HostMetricsRegistry>>,
    pub server_qos: Option<ServerQos>,
    pub service_error: Option<ServiceError>,
    pub idempotency: Option<Idempotency>,
}

/// `value` where it is set, else `default`.
pub open spec fn value_or<T>(value: Option<T>, default: T) -> T {
    match value {
        Some(v) => v,
        None => default,
    }
}

impl Builder {
    /// The configuration that the builder holds.
    pub open spec fn config(&self) -> ServiceModel {
        ServiceModel {
            uris: texts(self.uris@),
            connect_timeout: self.connect_timeout,
            read_timeout: self.read_timeout,
            write_timeout: self.write_timeout,
            max_num_retries: self.max_num_retries,
            backoff_base: self.backoff_base,
            backoff_cap: self.backoff_cap,
            proxy: proxy_model(self.proxy),
        }
    }

    /// The retry policy that the builder's settings give.
    pub open spec fn policy(&self) -> RetryPolicy {
        RetryPolicy {
            max_retries: value_or(self.max_num_retries, DEFAULT_MAX_NUM_RETRIES),
            backoff_base: value_or(self.backoff_base, DEFAULT_BACKOFF_BASE),
            backoff_cap: value_or(self.backoff_cap, DEFAULT_BACKOFF_CAP),
            idempotency: value_or(self.idempotency, Idempotency::ByMethod),
            server_qos: value_or(self.server_qos, ServerQos::AutomaticRetry),
        }
    }

    /// Whether `self` differs from `pre` in nothing but the configuration.
    pub open spec fn same_choices(&self, pre: &Builder) -> bool {
        &&& self.user_agent == pre.user_agent
        &&& self.metrics == pre.metrics
        &&& self.host_metrics == pre.host_metrics
        &&& self.server_qos == pre.server_qos
        &&& self.service_error == pre.service_error
        &&& self.idempotency == pre.idempotency
    }

    /// A builder with nothing set.
    pub fn new() -> (b: Builder)
        ensures
            b.config() == crate::config::empty_service(),
            b.user_agent is None,
            b.metrics is None,
            b.host_metrics is None,
            b.server_qos is None,
            b.service_error is None,
            b.idempotency is None,
    {
        let b = Builder {
            uris: Vec::new(),
            connect_timeout: None,
            read_timeout: None,
            write_timeout: None,
            max_num_retries: None,
            backoff_base: None,
            backoff_cap: None,
            proxy: None,
            user_agent: None,
            metrics: None,
            host_metrics: None,
            server_qos: None,
            service_error: None,
            idempotency: None,
        };
        assert(b.config().uris =~= Seq::<Seq<char>>::empty());
        b
    }

    /// Takes over everything that `config` says, and keeps the rest.
    pub fn from_config(&mut self, config: &ServiceConfig)
        ensures
            final(self).config() == config@,
            final(self).same_choices(old(self)),
    {
        self.uris = copy_strings(&config.uris);
        self.connect_timeout = config.connect_timeout;
        self.read_timeout = config.read_timeout;
        self.write_timeout = config.write_timeout;
        self.max_num_retries = config.max_num_retries;
        self.backoff_base = config.backoff_base;
        self.backoff_cap = config.backoff_cap;
        self.proxy = match &config.proxy {
            Some(p) => Some(p.copy()),
            None => None,
        };
    }
}

/// The state of a client.
pub struct ClientState {
    uris: Vec<String>,
    policy: RetryPolicy,
    connect_timeout: u64,
    read_timeout: u64,
    write_timeout: u64,
    proxy: Option<ProxyConfig>,
    user_agent: UserAgent,
    service_error: ServiceError,
    metrics: Option<Arc<MetricRegistry>>,
    host_metrics: Option<Arc<HostMetricsRegistry>>,
}

impl ClientState {
    /// The base URIs of the candidate hosts, in order.
    pub closed spec fn candidates(&self) -> Seq<Seq<char>> {
        texts(self.uris@)
    }

    /// The retry policy.
    pub closed spec fn retry_policy(&self) -> RetryPolicy {
        self.policy
    }

    /// The connect, read and write timeouts, in milliseconds.
    pub closed spec fn timeouts(&self) -> (u64, u64, u64) {
        (self.connect_timeout, self.read_timeout, self.write_timeout)
    }

    /// The proxy, if the hosts are reached through one.
    pub closed spec fn proxy_setting(&self) -> Option<ProxyModel> {
        proxy_model(self.proxy)
    }

    /// The user agent.
    pub closed spec fn agent(&self) -> UserAgent {
        self.user_agent
    }

    /// What is done with an error that the service reported.
    pub closed spec fn service_error_mode(&self) -> ServiceError {
        self.service_error
    }

    /// The registry for client metrics.
    pub closed spec fn metric_registry(&self) -> Option<Arc<MetricRegistry>> {
        self.metrics
    }

    /// The registry for host metrics.
    pub closed spec fn host_registry(&self) -> Option<Arc<HostMetricsRegistry>> {
        self.host_metrics
    }

    /// Whether the state is what the settings of `builder` give.
    pub open spec fn built_from(&self, builder: &Builder) -> bool {
        &&& builder.user_agent is Some
        &&& self.agent() == builder.user_agent->0
        &&& self.candidates() == builder.config().uris
        &&& self.retry_policy() == builder.policy()
        &&& self.timeouts() == (
            value_or(builder.connect_timeout, DEFAULT_CONNECT_TIMEOUT),
            value_or(builder.read_timeout, DEFAULT_READ_TIMEOUT),
            value_or(builder.write_timeout, DEFAULT_WRITE_TIMEOUT),
        )
        &&& self.proxy_setting() == builder.config().proxy
        &&& self.service_error_mode() == value_or(
            builder.service_error,
            ServiceError::WrapInNewError,
        )
        &&& self.metric_registry() == builder.metrics
        &&& self.host_registry() == builder.host_metrics
    }

    /// Builds the state that the settings of `builder` give. A user agent is
    /// required; every other setting has a default.
    pub fn new(builder: &Builder) -> (r: Result<ClientState, BuildError>)
        ensures
            match r {
                Ok(state) => state.built_from(builder),
                Err(e) => builder.user_agent is None && e == BuildError::MissingUserAgent,
            },
    {
        let user_agent = match &builder.user_agent {
            Some(agent) => agent.copy(),
            None => {
                return Err(BuildError::MissingUserAgent);
            },
        };
        let policy = RetryPolicy {
            max_retries: match builder.max_num_retries {
                Some(n) => n,
                None => DEFAULT_MAX_NUM_RETRIES,
            },
            backoff_base: match builder.backoff_base {
                Some(n) => n,
                None => DEFAULT_BACKOFF_BASE,
            },
            backoff_cap: match builder.backoff_cap {
                Some(n) => n,
                None => DEFAULT_BACKOFF_CAP,
            },
            idempotency: match builder.idempotency {
                Some(i) => i,
                None => Idempotency::ByMethod,
            },
            server_qos: match builder.server_qos {
                Some(q) => q,
                None => ServerQos::AutomaticRetry,
            },
        };
        Ok(
            ClientState {
                uris: copy_strings(&builder.uris),
                policy,
                connect_timeout: match builder.connect_timeout {
                    Some(n) => n,
                    None => DEFAULT_CONNECT_TIMEOUT,
                },
                read_timeout: match builder.read_timeout {
                    Some(n) => n,
                    None => DEFAULT_READ_TIMEOUT,
                },
                write_timeout: match builder.write_timeout {
                    Some(n) => n,
                    None => DEFAULT_WRITE_TIMEOUT,
                },
                proxy: match &builder.proxy {
                    Some(p) => Some(p.copy()),
                    None => None,
                },
                user_agent,
                service_error: match builder.service_error {
                    Some(e) => e,
                    None => ServiceError::WrapInNewError,
                },
                metrics: match &builder.metrics {
                    Some(m) => Some(Arc::clone(m)),
                    None => None,
                },
                host_metrics: match &builder.host_metrics {
                    Some(m) => Some(Arc::clone(m)),
                    None => None,
                },
            },
        )
    }

    /// The number of candidate hosts.
    pub fn node_count(&self) -> (n: usize)
        ensures
            n == self.candidates().len(),
    {
        self.uris.len()
    }

    /// The base URI of the candidate host at place `i`.
    pub fn uri(&self, i: usize) -> (u: Option<&String>)
        ensures
            match u {
                Some(s) => i < self.candidates().len() && s@ == self.candidates()[i as int],
                None => i >= self.candidates().len(),
            },
    {
        if i < self.uris.len() {
            Some(&self.uris[i])
        } else {
            None
        }
    }

    /// The retry policy.
    pub fn policy(&self) -> (p: RetryPolicy)
        ensures
            p == self.retry_policy(),
    {
        self.policy
    }

    /// The connect timeout, in milliseconds.
    pub fn connect_timeout(&self) -> (t: u64)
        ensures
            t == self.timeouts().0,
    {
        self.connect_timeout
    }

    /// The read timeout, in milliseconds.
    pub fn read_timeout(&self) -> (t: u64)
        ensures
            t == self.timeouts().1,
    {
        self.read_timeout
    }

    /// The write timeout, in milliseconds.
    pub fn write_timeout(&self) -> (t: u64)
        ensures
            t == self.timeouts().2,
    {
        self.write_timeout
    }

    /// The proxy, if the hosts are reached through one.
    pub fn proxy(&self) -> (p: &Option<ProxyConfig>)
        ensures
            proxy_model(*p) == self.proxy_setting(),
    {
        &self.proxy
    }

    /// The user agent.
    pub fn user_agent(&self) -> (a: &UserAgent)
        ensures
            *a == self.agent(),
    {
        &self.user_agent
    }

    /// What is done with an error that the service reported.
    pub fn service_error(&self) -> (e: ServiceError)
        ensures
            e == self.service_error_mode(),
    {
        self.service_error
    }

    /// The registry for client metrics.
    pub fn metrics(&self) -> (m: &Option<Arc<MetricRegistry>>)
        ensures
            *m == self.metric_registry(),
    {
        &self.metrics
    }

    /// The registry for host metrics.
    pub fn host_metrics(&self) -> (m: &Option<Arc<HostMetricsRegistry>>)
        ensures
            *m == self.host_registry(),
    {
        &self.host_metrics
    }
}

} // verus!
