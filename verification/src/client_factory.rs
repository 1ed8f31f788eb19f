//! Clients that reload themselves when the configuration changes.

use crate::client::value_or;
use crate::client::BuildError;
use crate::client::Builder;
use crate::client::ClientState;
use crate::client::UserAgent;
use crate::client::DEFAULT_BACKOFF_BASE;
use crate::client::DEFAULT_BACKOFF_CAP;
use crate::client::DEFAULT_CONNECT_TIMEOUT;
use crate::client::DEFAULT_MAX_NUM_RETRIES;
use crate::client::DEFAULT_READ_TIMEOUT;
use crate::client::DEFAULT_WRITE_TIMEOUT;
use crate::config::service_or_empty;
use crate::config::ServiceConfig;
use crate::config::ServiceModel;
use crate::config::ServicesConfig;
use crate::error::internal_error;
use crate::live::guard_value;
use crate::metrics::HostMetricsRegistry;
use crate::request::lemma_run_keeps_snapshot;
use crate::request::run;
use crate::request::Event;
use crate::request::Phase;
use crate::request::Request;
use crate::request::RequestModel;
use crate::retry::idempotent_under;
use crate::retry::Idempotency;
use crate::retry::Method;
use crate::retry::RetryPolicy;
use crate::retry::ServerQos;
use crate::retry::ServiceError;
use conjure_error::Error;
use core::sync::atomic::AtomicUsize;
use core::sync::atomic::Ordering;
use refreshable::Refreshable;
use refreshable::Subscription;
use std::sync::Arc;
use vstd::prelude::*;
use witchcraft_metrics::MetricRegistry;

verus! {

/// The cell that holds the current state of a client. Readers load from it
/// without waiting; a refresh replaces what it holds in one step.
///
/// The cell is an `ArcSwap` of the `arc_swap` crate. What it holds at a given
/// moment depends on what other threads have stored, so nothing is known of
/// it here.
#[verifier::external_body]
pub struct StateCell {
    cell: arc_swap::ArcSwap<ClientState>,
}

/// `ArcSwap::from_pointee` makes a cell that holds `state`.
#[verifier::external_body]
fn cell_new(state: ClientState) -> StateCell {
    StateCell { cell: arc_swap::ArcSwap::from_pointee(state) }
}

/// `ArcSwap::load_full` gives what the cell holds at the moment: the state
/// that was stored last.
#[verifier::external_body]
fn cell_load(cell: &StateCell) -> Arc<ClientState> {
    cell.cell.load_full()
}

/// `ArcSwap::store` replaces what the cell holds.
#[verifier::external_body]
fn cell_store(cell: &StateCell, state: Arc<ClientState>) {
    cell.cell.store(state)
}

/// What a factory gives to every client that it makes.
#[derive(Clone)]
pub struct Choices {
    pub user_agent: Option<UserAgent>,
    pub metrics: Option<Arc<MetricRegistry>>,
    pub host_metrics: Option<Arc<HostMetricsRegistry>>,
    pub server_qos: Option<ServerQos>,
    pub service_error: Option<ServiceError>,
    pub idempotency: Option<Idempotency>,
}

impl Choices {
    /// Whether `state` is what `config` and these choices give: the hosts,
    /// timeouts, proxy and retry knobs of the configuration, with the
    /// built-in defaults where it sets none, and the choices of the factory,
    /// with their defaults.
    pub open spec fn give(&self, config: ServiceModel, state: ClientState) -> bool {
        &&& self.user_agent is Some
        &&& state.agent() == self.user_agent->0
        &&& state.candidates() == config.uris
        &&& state.retry_policy() == RetryPolicy {
            max_retries: value_or(config.max_num_retries, DEFAULT_MAX_NUM_RETRIES),
            backoff_base: value_or(config.backoff_base, DEFAULT_BACKOFF_BASE),
            backoff_cap: value_or(config.backoff_cap, DEFAULT_BACKOFF_CAP),
            idempotency: value_or(self.idempotency, Idempotency::ByMethod),
            server_qos: value_or(self.server_qos, ServerQos::AutomaticRetry),
        }
        &&& state.timeouts() == (
            value_or(config.connect_timeout, DEFAULT_CONNECT_TIMEOUT),
            value_or(config.read_timeout, DEFAULT_READ_TIMEOUT),
            value_or(config.write_timeout, DEFAULT_WRITE_TIMEOUT),
        )
        &&& state.proxy_setting() == config.proxy
        &&& state.service_error_mode() == value_or(
            self.service_error,
            ServiceError::WrapInNewError,
        )
        &&& state.metric_registry() == self.metrics
        &&& state.host_registry() == self.host_metrics
    }

    /// A copy of the choices.
    pub fn copy(&self) -> (c: Choices)
        ensures
            c == *self,
    {
        Choices {
            user_agent: match &self.user_agent {
                Some(agent) => Some(agent.copy()),
                None => None,
            },
            metrics: match &self.metrics {
                Some(m) => Some(Arc::clone(m)),
                None => None,
            },
            host_metrics: match &self.host_metrics {
                Some(m) => Some(Arc::clone(m)),
                None => None,
            },
            server_qos: self.server_qos,
            service_error: self.service_error,
            idempotency: self.idempotency,
        }
    }

    /// Builds the client state for one version of a service's configuration.
    /// It fails only for want of a user agent.
    pub fn make_state(&self, config: &ServiceConfig) -> (r: Result<ClientState, BuildError>)
        ensures
            match r {
                Ok(state) => self.give(config@, state),
                Err(e) => self.user_agent is None && e == BuildError::MissingUserAgent,
            },
    {
        let mut builder = Builder::new();
        builder.from_config(config);
        if let Some(user_agent) = &self.user_agent {
            builder.user_agent = Some(user_agent.copy());
        }
        if let Some(metrics) = &self.metrics {
            builder.metrics = Some(Arc::clone(metrics));
        }
        if let Some(host_metrics) = &self.host_metrics {
            builder.host_metrics = Some(Arc::clone(host_metrics));
        }
        if let Some(server_qos) = self.server_qos {
            builder.server_qos = Some(server_qos);
        }
        if let Some(service_error) = self.service_error {
            builder.service_error = Some(service_error);
        }
        if let Some(idempotency) = self.idempotency {
            builder.idempotency = Some(idempotency);
        }
        ClientState::new(&builder)
    }
}

/// The text of the error that tells why no client state could be built.
pub fn build_error_message(e: BuildError) -> (m: &'static str)
    ensures
        m@ == "a user agent is required to build a client"@,
{
    match e {
        BuildError::MissingUserAgent => "a user agent is required to build a client",
    }
}

/// Takes a new version of the configuration: builds the state for it and
/// puts the state into the cell. Where no state can be built the cell keeps
/// what it holds, and the configuration source is told.
fn refresh(cell: &StateCell, choices: &Choices, config: &ServiceConfig) -> (r: Result<
    (),
    Error,
>)
    ensures
        r is Ok <==> choices.user_agent is Some,
{
    match choices.make_state(config) {
        Ok(state) => {
            cell_store(cell, Arc::new(state));
            Ok(())
        },
        Err(e) => Err(internal_error(build_error_message(e))),
    }
}

/// `Refreshable::map` with the function that picks the merged configuration
/// of the service called `service`, or the empty one: the result follows the
/// configuration of that service alone.
#[verifier::external_body]
fn narrow(config: &Refreshable<ServicesConfig, Error>, service: String) -> Refreshable<
    ServiceConfig,
    Error,
> {
    config.map(move |c| service_or_empty(c, service.as_str()))
}

/// `Refreshable::try_subscribe` with `refresh` on `cell` as the callback,
/// which is run once at once and then for every new version.
///
/// As documented, the call fails only if that first run of the callback
/// fails. The callback is `refresh` with these choices, which succeeds
/// whenever they hold a user agent: so with a user agent the call succeeds.
#[verifier::external_body]
fn watch(
    config: &Refreshable<ServiceConfig, Error>,
    cell: Arc<StateCell>,
    choices: Choices,
) -> (r: Result<Subscription<ServiceConfig, Error>, Error>)
    ensures
        choices.user_agent is Some ==> r is Ok,
{
    config.try_subscribe(move |c| refresh(&cell, &choices, c))
}

/// A client of one service.
///
/// A request takes the state that is current when it starts and keeps it to
/// its end; a refresh of the configuration reaches the requests that start
/// after it. The requests of a client start their node selection at
/// successive places of the candidate list, which spreads the load over the
/// hosts.
pub struct Client {
    state: Arc<StateCell>,
    subscription: Option<Subscription<ServiceConfig, Error>>,
    rotation: AtomicUsize,
}

impl Client {
    /// The cell from which the client reads its state.
    pub closed spec fn cell(&self) -> Arc<StateCell> {
        self.state
    }

    /// The subscription that keeps the state current, if there is one.
    pub closed spec fn subscription(&self) -> Option<Subscription<ServiceConfig, Error>> {
        self.subscription
    }

    /// A client that reads its state from `state`; `subscription` keeps the
    /// state current for as long as the client lives.
    pub fn new(
        state: Arc<StateCell>,
        subscription: Option<Subscription<ServiceConfig, Error>>,
    ) -> (c: Client)
        ensures
            c.cell() == state,
            c.subscription() == subscription,
    {
        Client { state, subscription, rotation: AtomicUsize::new(0) }
    }

    /// A client whose state is built once from `config` and never refreshed.
    pub fn fixed(choices: &Choices, config: &ServiceConfig) -> (r: Result<Client, BuildError>)
        ensures
            match r {
                Ok(client) => choices.user_agent is Some && client.subscription() is None,
                Err(e) => choices.user_agent is None && e == BuildError::MissingUserAgent,
            },
    {
        match choices.make_state(config) {
            Ok(state) => Ok(Client::new(Arc::new(cell_new(state)), None)),
            Err(e) => Err(e),
        }
    }

    /// The state that is current at the moment.
    pub fn state(&self) -> Arc<ClientState> {
        cell_load(&self.state)
    }

    /// Starts a logical request with the state that is current at the
    /// moment. Its node selection starts one place further round the
    /// candidate list than that of the request before it.
    pub fn request(&self, method: Method) -> (r: Request)
        ensures
            r.wf(),
            r@.wf(),
            r@.phase == Phase::Idle,
            r@.attempts == 0,
            r@.tried == Seq::<usize>::empty(),
            !r@.dirty,
            r@.idempotent == idempotent_under(r@.snapshot.retry_policy().idempotency, method),
    {
        let rotation = self.rotation.fetch_add(1, Ordering::Relaxed);
        Request::new(self.state(), method, rotation)
    }
}

/// A client for callers that block.
pub struct BlockingClient(pub Client);

/// A factory type which can create clients that will live-reload in response
/// to configuration updates.
#[derive(Clone)]
pub struct ClientFactory {
    config: Arc<Refreshable<ServicesConfig, Error>>,
    choices: Choices,
}

impl ClientFactory {
    /// The configuration source.
    pub closed spec fn source(&self) -> Arc<Refreshable<ServicesConfig, Error>> {
        self.config
    }

    /// What the factory gives to every client that it makes.
    pub closed spec fn choices(&self) -> Choices {
        self.choices
    }

    /// Creates a new client factory based off of a refreshable
    /// `ServicesConfig`.
    pub fn new(config: Refreshable<ServicesConfig, Error>) -> (f: ClientFactory)
        ensures
            *f.source() == config,
            f.choices() == (Choices {
                user_agent: None,
                metrics: None,
                host_metrics: None,
                server_qos: None,
                service_error: None,
                idempotency: None,
            }),
    {
        ClientFactory {
            config: Arc::new(config),
            choices: Choices {
                user_agent: None,
                metrics: None,
                host_metrics: None,
                server_qos: None,
                service_error: None,
                idempotency: None,
            },
        }
    }

    /// Sets the user agent sent by clients.
    ///
    /// Required.
    pub fn user_agent(&mut self, user_agent: UserAgent) -> (f: &mut Self)
        ensures
            f.source() == old(self).source(),
            f.choices() == (Choices { user_agent: Some(user_agent), ..old(self).choices() }),
            *final(self) == *final(f),
    {
        self.choices.user_agent = Some(user_agent);
        self
    }

    /// Sets clients' behavior in response to a QoS error from the server.
    ///
    /// Defaults to `ServerQos::AutomaticRetry`.
    pub fn server_qos(&mut self, server_qos: ServerQos) -> (f: &mut Self)
        ensures
            f.source() == old(self).source(),
            f.choices() == (Choices { server_qos: Some(server_qos), ..old(self).choices() }),
            *final(self) == *final(f),
    {
        self.choices.server_qos = Some(server_qos);
        self
    }

    /// Sets clients' behavior in response to a service error from the server.
    ///
    /// Defaults to `ServiceError::WrapInNewError`.
    pub fn service_error(&mut self, service_error: ServiceError) -> (f: &mut Self)
        ensures
            f.source() == old(self).source(),
            f.choices() == (Choices { service_error: Some(service_error), ..old(self).choices() }),
            *final(self) == *final(f),
    {
        self.choices.service_error = Some(service_error);
        self
    }

    /// Sets clients' behavior to determine if a request is idempotent or not.
    ///
    /// Only idempotent requests will be retried.
    ///
    /// Defaults to `Idempotency::ByMethod`.
    pub fn idempotency(&mut self, idempotency: Idempotency) -> (f: &mut Self)
        ensures
            f.source() == old(self).source(),
            f.choices() == (Choices { idempotency: Some(idempotency), ..old(self).choices() }),
            *final(self) == *final(f),
    {
        self.choices.idempotency = Some(idempotency);
        self
    }

    /// Sets the metric registry used to register client metrics.
    ///
    /// Defaults to no registry.
    pub fn metrics(&mut self, metrics: Arc<MetricRegistry>) -> (f: &mut Self)
        ensures
            f.source() == old(self).source(),
            f.choices() == (Choices { metrics: Some(metrics), ..old(self).choices() }),
            *final(self) == *final(f),
    {
        self.choices.metrics = Some(metrics);
        self
    }

    /// Sets the host metrics registry used to track host performance.
    ///
    /// Defaults to no registry.
    pub fn host_metrics(&mut self, host_metrics: Arc<HostMetricsRegistry>) -> (f: &mut Self)
        ensures
            f.source() == old(self).source(),
            f.choices() == (Choices { host_metrics: Some(host_metrics), ..old(self).choices() }),
            *final(self) == *final(f),
    {
        self.choices.host_metrics = Some(host_metrics);
        self
    }

    /// Creates a new client for the specified service.
    ///
    /// The client's configuration will automatically refresh to track changes
    /// in the factory's `ServicesConfig`.
    ///
    /// If no configuration is present for the specified service, the client
    /// has no candidate hosts and fails every request at once. A client is
    /// made exactly when the factory has a user agent.
    pub fn client(&self, service: &str) -> (r: Result<Client, Error>)
        ensures
            r is Ok <==> self.choices().user_agent is Some,
            r matches Ok(client) ==> client.subscription() is Some,
    {
        let service_config = narrow(&self.config, service.to_owned());
        let state = {
            let current = service_config.get();
            match self.choices.make_state(guard_value(&current)) {
                Ok(state) => state,
                Err(e) => {
                    return Err(internal_error(build_error_message(e)));
                },
            }
        };
        let cell = Arc::new(cell_new(state));
        match watch(&service_config, Arc::clone(&cell), self.choices.copy()) {
            Ok(subscription) => Ok(Client::new(cell, Some(subscription))),
            Err(e) => Err(e),
        }
    }

    /// Creates a new blocking client for the specified service: the result
    /// is that of one call of `client`, a client wrapped and an error handed
    /// on as it is.
    ///
    /// The client's configuration will automatically refresh to track changes
    /// in the factory's `ServicesConfig`.
    pub fn blocking_client(&self, service: &str) -> (r: Result<BlockingClient, Error>)
        ensures
            match r {
                Ok(blocking) => ClientFactory::client.ensures(
                    (self, service),
                    Ok::<Client, Error>(blocking.0),
                ),
                Err(e) => ClientFactory::client.ensures((self, service), Err::<Client, Error>(e)),
            },
            r is Ok <==> self.choices().user_agent is Some,
            r matches Ok(blocking) ==> blocking.0.subscription() is Some,
    {
        match self.client(service) {
            Ok(client) => Ok(BlockingClient(client)),
            Err(e) => Err(e),
        }
    }
}

/// A request uses the candidate list of the configuration from which its
/// state was built, from its start to its end: whatever happens to the
/// request, and whatever is refreshed meanwhile, the hosts that it sees are
/// those of that configuration.
pub proof fn lemma_request_keeps_its_candidates(
    choices: Choices,
    config: ServiceModel,
    state: ClientState,
    start: RequestModel,
    events: Seq<(Event, u64)>,
)
    requires
        choices.give(config, state),
        start.wf(),
        start.snapshot == state,
    ensures
        run(start, events).snapshot.candidates() == config.uris,
        run(start, events).policy().max_retries == value_or(
            config.max_num_retries,
            DEFAULT_MAX_NUM_RETRIES,
        ),
{
    lemma_run_keeps_snapshot(start, events);
}

} // verus!
