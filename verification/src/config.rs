//! Configuration snapshots: what is configured for all services, what for
//! one, and how the two merge.

use vstd::prelude::*;

verus! {

/// The proxy through which a service is reached.
#[derive(Clone, Debug, PartialEq, Eq)]
pub struct ProxyConfig {
    pub host: String,
    pub port: u16,
}

/// What is configured for one service. A knob that is not set falls back to
/// the value configured for all services, and then to the built-in default.
/// Durations are in milliseconds.
#[derive(Clone, Debug, PartialEq, Eq)]
pub struct ServiceConfig {
    /// The base URIs of the candidate hosts, in order.
    pub uris: Vec<String>,
    pub connect_timeout: Option<u64>,
    pub read_timeout: Option<u64>,
    pub write_timeout: Option<u64>,
    pub max_num_retries: Option<u32>,
    pub backoff_base: Option<u64>,
    pub backoff_cap: Option<u64>,
    pub proxy: Option<ProxyConfig>,
}

/// The configuration of one service under its name.
#[derive(Clone, Debug, PartialEq, Eq)]
pub struct NamedService {
    pub name: String,
    pub config: ServiceConfig,
}

/// What is configured for all services together.
#[derive(Clone, Debug, PartialEq, Eq)]
pub struct ServicesConfig {
    /// The services. Where a name stands twice, the first entry counts.
    pub services: Vec<NamedService>,
    pub connect_timeout: Option<u64>,
    pub read_timeout: Option<u64>,
    pub write_timeout: Option<u64>,
    pub max_num_retries: Option<u32>,
    pub backoff_base: Option<u64>,
    pub backoff_cap: Option<u64>,
    pub proxy: Option<ProxyConfig>,
}

/// A proxy as contracts see it.
pub struct ProxyModel {
    pub host: Seq<char>,
    pub port: u16,
}

/// The configuration of a service as contracts see it.
pub struct ServiceModel {
    pub uris: Seq<Seq<char>>,
    pub connect_timeout: Option<u64>,
    pub read_timeout: Option<u64>,
    pub write_timeout: Option<u64>,
    pub max_num_retries: Option<u32>,
    pub backoff_base: Option<u64>,
    pub backoff_cap: Option<u64>,
    pub proxy: Option<ProxyModel>,
}

impl View for ProxyConfig {
    type V = ProxyModel;

    open spec fn view(&self) -> ProxyModel {
        ProxyModel { host: self.host@, port: self.port }
    }
}

/// The text of each of a list of strings.
pub open spec fn texts(v: Seq<String>) -> Seq<Seq<char>> {
    Seq::new(v.len(), |i: int| v[i]@)
}

/// A proxy setting as contracts see it.
pub open spec fn proxy_model(p: Option<ProxyConfig>) -> Option<ProxyModel> {
    match p {
        Some(c) => Some(c@),
        None => None,
    }
}

impl View for ServiceConfig {
    type V = ServiceModel;

    open spec fn view(&self) -> ServiceModel {
        ServiceModel {
            uris: texts(self.uris@),
            connect_timeout: self.connect_timeout,
            read_timeout: self.read_timeout,
            write_timeout: self.write_timeout,
            max_num_retries: self.max_num_retries,
            backoff_base: self.backoff_base,
            backoff_cap: self.backoff_cap,
            proxy: proxy_model(self.proxy),
        }
    }
}

/// The configuration with no host and no knob set.
pub open spec fn empty_service() -> ServiceModel {
    ServiceModel {
        uris: Seq::empty(),
        connect_timeout: None,
        read_timeout: None,
        write_timeout: None,
        max_num_retries: None,
        backoff_base: None,
        backoff_cap: None,
        proxy: None,
    }
}

/// `first` where it is set, else `second`.
pub open spec fn or_else<T>(first: Option<T>, second: Option<T>) -> Option<T> {
    if first is Some {
        first
    } else {
        second
    }
}

impl ServicesConfig {
    /// The index of the first service called `name`, if there is one.
    pub open spec fn index_of(&self, name: Seq<char>) -> Option<int> {
        if exists|i: int| self.names_at(i, name) {
            Some(choose|i: int| self.names_at(i, name))
        } else {
            None
        }
    }

    /// Whether `i` is the first entry called `name`.
    pub open spec fn names_at(&self, i: int, name: Seq<char>) -> bool {
        &&& 0 <= i < self.services@.len()
        &&& self.services@[i].name@ == name
        &&& forall|j: int| 0 <= j < i ==> self.services@[j].name@ != name
    }

    /// What is configured for `service`, with the knobs that it leaves open
    /// set as they are for all services.
    pub open spec fn merge(&self, service: ServiceModel) -> ServiceModel {
        ServiceModel {
            uris: service.uris,
            connect_timeout: or_else(service.connect_timeout, self.connect_timeout),
            read_timeout: or_else(service.read_timeout, self.read_timeout),
            write_timeout: or_else(service.write_timeout, self.write_timeout),
            max_num_retries: or_else(service.max_num_retries, self.max_num_retries),
            backoff_base: or_else(service.backoff_base, self.backoff_base),
            backoff_cap: or_else(service.backoff_cap, self.backoff_cap),
            proxy: or_else(service.proxy, proxy_model(self.proxy)),
        }
    }

    /// The merged configuration of the service called `name`, if it is
    /// configured.
    pub open spec fn merged(&self, name: Seq<char>) -> Option<ServiceModel> {
        match self.index_of(name) {
            Some(i) => Some(self.merge(self.services@[i].config@)),
            None => None,
        }
    }

    /// The merged configuration of the service called `name`, or the empty
    /// one if the service is not configured.
    pub open spec fn merged_or_empty(&self, name: Seq<char>) -> ServiceModel {
        match self.merged(name) {
            Some(c) => c,
            None => empty_service(),
        }
    }

    /// Returns the configuration of the service called `name` with the
    /// settings for all services merged in, if the service is configured.
    pub fn merged_service(&self, name: &str) -> (r: Option<ServiceConfig>)
        ensures
            match r {
                Some(c) => self.merged(name@) == Some(c@),
                None => self.merged(name@) is None,
            },
    {
        let mut i: usize = 0;
        while i < self.services.len()
            invariant
                0 <= i <= self.services@.len(),
                forall|j: int| 0 <= j < i ==> self.services@[j].name@ != name@,
            decreases self.services@.len() - i,
        {
            if str_equal(self.services[i].name.as_str(), name) {
                proof {
                    assert(self.names_at(i as int, name@));
                    let c = choose|c: int| self.names_at(c, name@);
                    assert(c == i) by {
                        if c < i {
                            assert(self.services@[c].name@ != name@);
                        } else if i < c {
                            assert(self.services@[i as int].name@ != name@);
                        }
                    }
                }
                let service = &self.services[i].config;
                return Some(
                    ServiceConfig {
                        uris: copy_strings(&service.uris),
                        connect_timeout: first_set(service.connect_timeout, self.connect_timeout),
                        read_timeout: first_set(service.read_timeout, self.read_timeout),
                        write_timeout: first_set(service.write_timeout, self.write_timeout),
                        max_num_retries: first_set(service.max_num_retries, self.max_num_retries),
                        backoff_base: first_set(service.backoff_base, self.backoff_base),
                        backoff_cap: first_set(service.backoff_cap, self.backoff_cap),
                        proxy: match &service.proxy {
                            Some(p) => Some(p.copy()),
                            None => match &self.proxy {
                                Some(p) => Some(p.copy()),
                                None => None,
                            },
                        },
                    },
                );
            }
            i = i + 1;
        }
        proof {
            assert forall|c: int| !self.names_at(c, name@) by {
                if 0 <= c < self.services@.len() {
                    assert(self.services@[c].name@ != name@);
                }
            }
        }
        None
    }
}

/// The merged configuration of the service called `name`, or the empty one
/// if the service is not configured.
pub fn service_or_empty(config: &ServicesConfig, name: &str) -> (c: ServiceConfig)
    ensures
        c@ == config.merged_or_empty(name@),
{
    match config.merged_service(name) {
        Some(c) => c,
        None => ServiceConfig::empty(),
    }
}

impl ProxyConfig {
    /// A copy of the setting.
    pub fn copy(&self) -> (c: ProxyConfig)
        ensures
            c@ == self@,
    {
        ProxyConfig { host: self.host.clone(), port: self.port }
    }
}

impl ServiceConfig {
    /// The configuration with no host and no knob set: what an unconfigured
    /// service has.
    pub fn empty() -> (c: ServiceConfig)
        ensures
            c@ == empty_service(),
    {
        let c = ServiceConfig {
            uris: Vec::new(),
            connect_timeout: None,
            read_timeout: None,
            write_timeout: None,
            max_num_retries: None,
            backoff_base: None,
            backoff_cap: None,
            proxy: None,
        };
        assert(c@.uris =~= Seq::<Seq<char>>::empty());
        c
    }

    /// A copy of the configuration.
    pub fn copy(&self) -> (c: ServiceConfig)
        ensures
            c@ == self@,
    {
        ServiceConfig {
            uris: copy_strings(&self.uris),
            connect_timeout: self.connect_timeout,
            read_timeout: self.read_timeout,
            write_timeout: self.write_timeout,
            max_num_retries: self.max_num_retries,
            backoff_base: self.backoff_base,
            backoff_cap: self.backoff_cap,
            proxy: match &self.proxy {
                Some(p) => Some(p.copy()),
                None => None,
            },
        }
    }
}

/// Whether two texts are the same.
pub fn str_equal(a: &str, b: &str) -> (e: bool)
    ensures
        e == (a@ == b@),
{
    let x = a.to_owned();
    let y = b.to_owned();
    x == y
}

/// A copy of a list of strings.
pub fn copy_strings(v: &Vec<String>) -> (c: Vec<String>)
    ensures
        texts(c@) == texts(v@),
{
    let mut c: Vec<String> = Vec::new();
    let mut i: usize = 0;
    while i < v.len()
        invariant
            0 <= i <= v@.len(),
            c@.len() == i,
            forall|j: int| 0 <= j < i ==> c@[j]@ == v@[j]@,
        decreases v@.len() - i,
    {
        c.push(v[i].clone());
        i = i + 1;
    }
    assert(texts(c@) =~= texts(v@));
    c
}

/// `first` where it is set, else `second`.
pub fn first_set<T>(first: Option<T>, second: Option<T>) -> (r: Option<T>)
    ensures
        r == or_else(first, second),
{
    match first {
        Some(v) => Some(v),
        None => second,
    }
}

} // verus!
