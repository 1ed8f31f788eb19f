use conjure_runtime::client::BuildError;
use conjure_runtime::client::Builder;
use conjure_runtime::client::ClientState;
use conjure_runtime::client::UserAgent;
use conjure_runtime::client::DEFAULT_BACKOFF_BASE;
use conjure_runtime::client::DEFAULT_BACKOFF_CAP;
use conjure_runtime::client::DEFAULT_CONNECT_TIMEOUT;
use conjure_runtime::client::DEFAULT_MAX_NUM_RETRIES;
use conjure_runtime::client::DEFAULT_READ_TIMEOUT;
use conjure_runtime::client::DEFAULT_WRITE_TIMEOUT;
use conjure_runtime::client_factory::build_error_message;
use conjure_runtime::client_factory::Choices;
use conjure_runtime::config::copy_strings;
use conjure_runtime::config::first_set;
use conjure_runtime::config::service_or_empty;
use conjure_runtime::config::str_equal;
use conjure_runtime::config::NamedService;
use conjure_runtime::config::ProxyConfig;
use conjure_runtime::config::ServiceConfig;
use conjure_runtime::config::ServicesConfig;
use conjure_runtime::metrics::HostMetricsRegistry;
use conjure_runtime::retry::Idempotency;
use conjure_runtime::retry::RetryPolicy;
use conjure_runtime::retry::ServerQos;
use conjure_runtime::retry::ServiceError;
use std::sync::Arc;
use witchcraft_metrics::MetricRegistry;

fn service(uris: &[&str]) -> ServiceConfig {
    let mut config = ServiceConfig::empty();
    config.uris = uris.iter().map(|u| u.to_string()).collect();
    config
}

fn services() -> ServicesConfig {
    let mut first = service(&["https://a1", "https://a2"]);
    first.connect_timeout = Some(1);
    first.max_num_retries = Some(7);
    first.proxy = Some(ProxyConfig { host: "near".to_string(), port: 8080 });
    let second = service(&["https://b1"]);
    let shadowed = service(&["https://never"]);
    ServicesConfig {
        services: vec![
            NamedService { name: "alpha".to_string(), config: first },
            NamedService { name: "beta".to_string(), config: second },
            NamedService { name: "alpha".to_string(), config: shadowed },
        ],
        connect_timeout: Some(2),
        read_timeout: Some(3),
        write_timeout: None,
        max_num_retries: Some(9),
        backoff_base: Some(50),
        backoff_cap: None,
        proxy: Some(ProxyConfig { host: "far".to_string(), port: 3128 }),
    }
}

#[test]
fn a_service_keeps_what_it_sets_and_takes_the_rest_from_all() {
    let merged = services().merged_service("alpha").unwrap();
    assert_eq!(merged.uris, vec!["https://a1".to_string(), "https://a2".to_string()]);
    assert_eq!(merged.connect_timeout, Some(1));
    assert_eq!(merged.read_timeout, Some(3));
    assert_eq!(merged.write_timeout, None);
    assert_eq!(merged.max_num_retries, Some(7));
    assert_eq!(merged.backoff_base, Some(50));
    assert_eq!(merged.backoff_cap, None);
    assert_eq!(merged.proxy, Some(ProxyConfig { host: "near".to_string(), port: 8080 }));

    let merged = services().merged_service("beta").unwrap();
    assert_eq!(merged.uris, vec!["https://b1".to_string()]);
    assert_eq!(merged.connect_timeout, Some(2));
    assert_eq!(merged.max_num_retries, Some(9));
    assert_eq!(merged.proxy, Some(ProxyConfig { host: "far".to_string(), port: 3128 }));
}

#[test]
fn an_unconfigured_service_has_the_empty_configuration() {
    assert_eq!(services().merged_service("gamma"), None);
    assert_eq!(services().merged_service(""), None);
    assert_eq!(services().merged_service("Alpha"), None);
    assert_eq!(service_or_empty(&services(), "gamma"), ServiceConfig::empty());
    assert_eq!(
        service_or_empty(&services(), "beta"),
        services().merged_service("beta").unwrap()
    );
    let empty = ServiceConfig::empty();
    assert!(empty.uris.is_empty());
    assert_eq!(empty.connect_timeout, None);
    assert_eq!(empty.proxy, None);
}

#[test]
fn copies_are_equal_to_what_they_copy() {
    let merged = services().merged_service("alpha").unwrap();
    assert_eq!(merged.copy(), merged);
    let proxy = ProxyConfig { host: "h".to_string(), port: 1 };
    assert_eq!(proxy.copy(), proxy);
    let strings = vec!["x".to_string(), String::new(), "yz".to_string()];
    assert_eq!(copy_strings(&strings), strings);
    assert!(copy_strings(&Vec::new()).is_empty());
    let agent = UserAgent { name: "n".to_string(), version: "v".to_string() };
    assert_eq!(agent.copy(), agent);
}

#[test]
fn small_helpers() {
    assert!(str_equal("abc", "abc"));
    assert!(str_equal("", ""));
    assert!(!str_equal("abc", "abd"));
    assert!(!str_equal("abc", "ab"));
    assert_eq!(first_set(Some(1u64), Some(2)), Some(1));
    assert_eq!(first_set(None, Some(2u64)), Some(2));
    assert_eq!(first_set(Some(1u32), None), Some(1));
    assert_eq!(first_set::<u32>(None, None), None);
}

#[test]
fn a_state_needs_a_user_agent() {
    let builder = Builder::new();
    assert!(matches!(ClientState::new(&builder), Err(BuildError::MissingUserAgent)));
    assert_eq!(
        build_error_message(BuildError::MissingUserAgent),
        "a user agent is required to build a client"
    );
    let choices = Choices {
        user_agent: None,
        metrics: None,
        host_metrics: None,
        server_qos: Some(ServerQos::AutomaticRetry),
        service_error: None,
        idempotency: None,
    };
    assert!(matches!(
        choices.make_state(&service(&["https://a"])),
        Err(BuildError::MissingUserAgent)
    ));
}

#[test]
fn a_state_has_defaults_for_what_is_not_set() {
    let mut builder = Builder::new();
    builder.user_agent = Some(UserAgent { name: "n".to_string(), version: "v".to_string() });
    let state = ClientState::new(&builder).unwrap();
    assert_eq!(state.node_count(), 0);
    assert_eq!(state.uri(0), None);
    assert_eq!(
        state.policy(),
        RetryPolicy {
            max_retries: DEFAULT_MAX_NUM_RETRIES,
            backoff_base: DEFAULT_BACKOFF_BASE,
            backoff_cap: DEFAULT_BACKOFF_CAP,
            idempotency: Idempotency::ByMethod,
            server_qos: ServerQos::AutomaticRetry,
        }
    );
    assert_eq!(state.connect_timeout(), DEFAULT_CONNECT_TIMEOUT);
    assert_eq!(state.read_timeout(), DEFAULT_READ_TIMEOUT);
    assert_eq!(state.write_timeout(), DEFAULT_WRITE_TIMEOUT);
    assert_eq!(state.proxy(), &None);
    assert_eq!(state.service_error(), ServiceError::WrapInNewError);
    assert!(state.metrics().is_none());
    assert!(state.host_metrics().is_none());
    assert_eq!(state.user_agent().name, "n");
    assert_eq!(
        (DEFAULT_CONNECT_TIMEOUT, DEFAULT_READ_TIMEOUT, DEFAULT_WRITE_TIMEOUT),
        (10000, 300000, 300000)
    );
    assert_eq!((DEFAULT_MAX_NUM_RETRIES, DEFAULT_BACKOFF_BASE, DEFAULT_BACKOFF_CAP), (4, 250, 10000));
}

#[test]
fn a_state_takes_what_configuration_and_choices_say() {
    let registry = Arc::new(MetricRegistry::new());
    let hosts = Arc::new(HostMetricsRegistry::new(registry.clone()));
    assert!(Arc::ptr_eq(hosts.registry(), &registry));
    let choices = Choices {
        user_agent: Some(UserAgent { name: "svc".to_string(), version: "2.0".to_string() }),
        metrics: Some(registry.clone()),
        host_metrics: Some(hosts.clone()),
        server_qos: Some(ServerQos::Propagate429And503ToCaller),
        service_error: Some(ServiceError::PropagateToCaller),
        idempotency: Some(Idempotency::Never),
    };
    let copy = choices.copy();
    assert_eq!(copy.user_agent, choices.user_agent);
    assert_eq!(copy.idempotency, Some(Idempotency::Never));
    let mut config = services().merged_service("alpha").unwrap();
    config.write_timeout = Some(44);
    config.backoff_cap = Some(5);
    let state = choices.make_state(&config).unwrap();
    assert_eq!(state.node_count(), 2);
    assert_eq!(state.uri(0).map(|s| s.as_str()), Some("https://a1"));
    assert_eq!(state.uri(1).map(|s| s.as_str()), Some("https://a2"));
    assert_eq!(state.uri(2), None);
    assert_eq!(
        state.policy(),
        RetryPolicy {
            max_retries: 7,
            backoff_base: 50,
            backoff_cap: 5,
            idempotency: Idempotency::Never,
            server_qos: ServerQos::Propagate429And503ToCaller,
        }
    );
    assert_eq!(state.connect_timeout(), 1);
    assert_eq!(state.read_timeout(), 3);
    assert_eq!(state.write_timeout(), 44);
    assert_eq!(state.proxy(), &Some(ProxyConfig { host: "near".to_string(), port: 8080 }));
    assert_eq!(state.service_error(), ServiceError::PropagateToCaller);
    assert_eq!(state.user_agent().version, "2.0");
    assert!(Arc::ptr_eq(state.metrics().as_ref().unwrap(), &registry));
    assert!(Arc::ptr_eq(state.host_metrics().as_ref().unwrap(), &hosts));
}

#[test]
fn a_builder_takes_over_a_configuration_and_keeps_its_choices() {
    let mut builder = Builder::new();
    builder.user_agent = Some(UserAgent { name: "n".to_string(), version: "v".to_string() });
    builder.idempotency = Some(Idempotency::Always);
    builder.read_timeout = Some(99);
    let config = services().merged_service("beta").unwrap();
    builder.from_config(&config);
    assert_eq!(builder.uris, vec!["https://b1".to_string()]);
    assert_eq!(builder.read_timeout, Some(3));
    assert_eq!(builder.write_timeout, None);
    assert_eq!(builder.idempotency, Some(Idempotency::Always));
    assert!(builder.user_agent.is_some());
}
