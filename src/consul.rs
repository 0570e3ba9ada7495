#![allow(non_snake_case)]

use vstd::prelude::*;
use vstd::string::{StrSliceExecFns, StringExecFns};
use crate::instance::{
    copy_pairs, copy_strings, opt_strings, uri_of, DiscoveryOptions, HeartbeatOptions, IService,
    Registration, ServiceInstance, ServiceInstanceOptions,
};
use crate::registry::{status_of_text, ServiceInstanceState, ServiceStatus};
use crate::text::strings_view;

verus! {

/// The weights of a catalog service.
#[derive(Clone, Copy, Debug, PartialEq, Eq, Structural)]
pub struct Weights {
    pub Passing: u32,
    pub Warning: u32,
}

/// A node of the catalog.
#[derive(Clone, Debug)]
pub struct Node {
    pub ID: String,
    pub Node: String,
    pub Address: String,
    pub Datacenter: String,
    pub TaggedAddresses: Vec<(String, String)>,
    pub Meta: Vec<(String, String)>,
    pub CreateIndex: u64,
    pub ModifyIndex: u64,
}

/// A service entry of the catalog.
#[derive(Clone, Debug)]
pub struct CatalogService {
    pub ID: String,
    pub Node: String,
    pub Address: String,
    pub Datacenter: String,
    pub TaggedAddresses: Vec<(String, String)>,
    pub NodeMeta: Vec<(String, String)>,
    pub ServiceID: String,
    pub ServiceName: String,
    pub ServiceAddress: String,
    pub ServiceTags: Vec<String>,
    pub ServiceMeta: Vec<(String, String)>,
    pub ServicePort: u32,
    pub ServiceWeights: Weights,
    pub ServiceEnableTagOverride: bool,
    pub CreateIndex: u64,
    pub ModifyIndex: u64,
}

/// A service as an agent runs it.
#[derive(Clone, Debug)]
pub struct AgentService {
    pub ID: String,
    pub Service: String,
    pub Tags: Option<Vec<String>>,
    pub Port: u16,
    pub Address: String,
    pub EnableTagOverride: bool,
    pub CreateIndex: u64,
    pub ModifyIndex: u64,
}

/// A health check as an agent runs it.
#[derive(Clone, Debug)]
pub struct AgentCheck {
    pub Node: String,
    pub CheckID: String,
    pub Name: String,
    pub Status: String,
    pub Notes: String,
    pub Output: String,
    pub ServiceID: String,
    pub ServiceName: String,
}

/// A node with the services that run on it.
#[derive(Clone, Debug)]
pub struct CatalogNode {
    pub Node: Option<Node>,
    pub Services: Vec<(String, AgentService)>,
}

/// A registration sent to the catalog.
#[derive(Clone, Debug)]
pub struct CatalogRegistration {
    pub ID: String,
    pub Node: String,
    pub Address: String,
    pub TaggedAddresses: Vec<(String, String)>,
    pub NodeMeta: Vec<(String, String)>,
    pub Datacenter: String,
    pub Service: Option<AgentService>,
    pub Check: Option<AgentCheck>,
    pub SkipNodeUpdate: bool,
}

/// A deregistration sent to the catalog.
#[derive(Clone, Debug)]
pub struct CatalogDeregistration {
    pub Node: String,
    pub Address: String,
    pub Datacenter: String,
    pub ServiceID: String,
    pub CheckID: String,
}

/// An entry of the key/value store.
#[derive(Clone, Debug)]
pub struct KVPair {
    pub Key: String,
    pub CreateIndex: Option<u64>,
    pub ModifyIndex: Option<u64>,
    pub LockIndex: Option<u64>,
    pub Flags: Option<u64>,
    pub Value: String,
    pub Session: Option<String>,
}

/// The id of a session.
#[derive(Clone, Debug)]
pub struct SessionID {
    pub ID: String,
}

/// A session.
#[derive(Clone, Debug)]
pub struct SessionEntry {
    pub CreateIndex: Option<u64>,
    pub ID: Option<String>,
    pub Name: Option<String>,
    pub Node: Option<String>,
    pub LockDelay: Option<u64>,
    pub Behavior: Option<String>,
    pub Checks: Option<Vec<String>>,
    pub TTL: Option<String>,
}

/// A root certificate of the certificate authority.
#[derive(Clone, Debug)]
pub struct CARoot {
    pub ID: String,
    pub Name: String,
    pub RootCert: String,
    pub Active: bool,
    pub CreateIndex: u64,
    pub ModifyIndex: u64,
}

/// The root certificates of the certificate authority.
#[derive(Clone, Debug)]
pub struct CARootList {
    pub ActiveRootID: String,
    pub TrustDomain: String,
    pub Roots: Vec<CARoot>,
}

/// The first position at or after `i` whose key is `k`, or the length.
pub open spec fn text_slot(s: Seq<(Seq<char>, Seq<char>)>, k: Seq<char>, i: int) -> int
    decreases s.len() - i,
{
    if i < 0 || i >= s.len() {
        s.len() as int
    } else if s[i].0 == k {
        i
    } else {
        text_slot(s, k, i + 1)
    }
}

/// The pairs with `k` bound to `v`: its first entry replaced, or one appended.
pub open spec fn text_put(s: Seq<(Seq<char>, Seq<char>)>, k: Seq<char>, v: Seq<char>) -> Seq<
    (Seq<char>, Seq<char>),
> {
    let p = text_slot(s, k, 0);
    if p < s.len() {
        s.update(p, (k, v))
    } else {
        s.push((k, v))
    }
}

/// The views of text pairs.
pub open spec fn pairs_view(s: Seq<(String, String)>) -> Seq<(Seq<char>, Seq<char>)> {
    Seq::new(s.len(), |i: int| (s[i].0@, s[i].1@))
}

/// Binds `k` to `v` among the pairs.
pub fn put_text(pairs: &mut Vec<(String, String)>, k: String, v: String)
    ensures
        pairs_view(final(pairs)@) == text_put(pairs_view(old(pairs)@), k@, v@),
{
    let ghost pv = pairs_view(pairs@);
    let mut i: usize = 0;
    while i < pairs.len()
        invariant
            pv == pairs_view(pairs@),
            pv == pairs_view(old(pairs)@),
            i <= pairs.len(),
            text_slot(pv, k@, 0) == text_slot(pv, k@, i as int),
        decreases pairs.len() - i,
    {
        if pairs[i].0 == k {
            pairs.remove(i);
            pairs.insert(i, (k, v));
            assert(pairs_view(pairs@) =~= pv.update(i as int, (k@, v@)));
            return;
        }
        i = i + 1;
    }
    pairs.push((k, v));
    assert(pairs_view(pairs@) =~= pv.push((k@, v@)));
}

/// Relies on nanoid's `format`, with its default random source and its
/// URL-safe alphabet of one-byte characters: a fresh id of 21 characters.
#[verifier::external_body]
pub(crate) fn random_id() -> (r: String)
    ensures
        r@.len() == 21,
{
    nanoid::format(nanoid::rngs::default, &nanoid::alphabet::SAFE, 21)
}

/// How the catalog checks a registered instance.
#[derive(Clone, Debug)]
pub struct ConsulDiscoveryOption {
    pub discovery_options: DiscoveryOptions,
    pub scheme: String,
    pub fail_fast: Option<bool>,
    pub notes: Option<String>,
    pub script: Option<String>,
    pub deregister_critical_service_after: Option<String>,
}

/// A service registration for the catalog.
#[derive(Clone, Debug)]
pub struct ConsulRegistration {
    service: CatalogRegistration,
    discovery_options: ConsulDiscoveryOption,
}

impl ConsulRegistration {
    pub closed spec fn service(&self) -> CatalogRegistration {
        self.service
    }

    pub closed spec fn discovery(&self) -> ConsulDiscoveryOption {
        self.discovery_options
    }

    /// The registration of `service`, checked as `discovery_options` says.
    pub fn new(service: CatalogRegistration, discovery_options: ConsulDiscoveryOption) -> (r:
        ConsulRegistration)
        ensures
            r.service() == service,
            r.discovery() == discovery_options,
    {
        ConsulRegistration { service, discovery_options }
    }
}

impl ServiceInstance for ConsulRegistration {
    closed spec fn instance_id_spec(&self) -> Seq<char> {
        self.service.ID@
    }

    closed spec fn service_id_spec(&self) -> Seq<char> {
        self.service.ID@
    }

    /// The address of the agent service; empty where there is none.
    closed spec fn host_spec(&self) -> Seq<char> {
        match self.service.Service {
            Some(s) => s.Address@,
            None => Seq::empty(),
        }
    }

    /// The port of the agent service; zero where there is none.
    closed spec fn port_spec(&self) -> u32 {
        match self.service.Service {
            Some(s) => s.Port as u32,
            None => 0,
        }
    }

    closed spec fn secure_spec(&self) -> bool {
        self.discovery_options.scheme@ == "https"@
    }

    closed spec fn scheme_spec(&self) -> Seq<char> {
        self.discovery_options.scheme@
    }

    closed spec fn metadata_spec(&self) -> Seq<(Seq<char>, Seq<char>)> {
        pairs_view(self.service.NodeMeta@)
    }

    closed spec fn tags_spec(&self) -> Seq<Seq<char>> {
        match self.service.Service {
            Some(s) => opt_strings(s.Tags),
            None => Seq::empty(),
        }
    }

    /// The status of the check; empty where there is none.
    closed spec fn status_spec(&self) -> Seq<char> {
        match self.service.Check {
            Some(c) => c.Status@,
            None => Seq::empty(),
        }
    }

    closed spec fn node_id_spec(&self) -> Seq<char> {
        self.service.Node@
    }

    closed spec fn state_spec(&self) -> Option<ServiceInstanceState> {
        None
    }

    fn get_instance_id(&self) -> String {
        self.service.ID.clone()
    }

    fn get_service_id(&self) -> String {
        self.service.ID.clone()
    }

    fn get_host(&self) -> String {
        match &self.service.Service {
            Some(s) => s.Address.clone(),
            None => String::new(),
        }
    }

    fn get_port(&self) -> u32 {
        match &self.service.Service {
            Some(s) => s.Port as u32,
            None => 0,
        }
    }

    fn is_secure(&self) -> bool {
        let https = String::from_str("https");
        proof {
            reveal_strlit("https");
        }
        self.discovery_options.scheme == https
    }

    fn get_uri(&self) -> String {
        let host = self.get_host();
        uri_of(self.discovery_options.scheme.as_str(), host.as_str(), self.get_port())
    }

    fn get_scheme(&self) -> String {
        self.discovery_options.scheme.clone()
    }

    fn get_metadata(&self) -> Vec<(String, String)> {
        copy_pairs(&self.service.NodeMeta)
    }

    fn get_tags(&self) -> Vec<String> {
        match &self.service.Service {
            Some(s) => match &s.Tags {
                Some(t) => copy_strings(t),
                None => {
                    let v: Vec<String> = Vec::new();
                    assert(strings_view(v@) =~= Seq::empty());
                    v
                },
            },
            None => {
                let v: Vec<String> = Vec::new();
                assert(strings_view(v@) =~= Seq::empty());
                v
            },
        }
    }

    fn get_status(&self) -> String {
        match &self.service.Check {
            Some(c) => c.Status.clone(),
            None => String::new(),
        }
    }

    fn get_node_id(&self) -> String {
        self.service.Node.clone()
    }

    fn get_state(self) -> ServiceInstanceState {
        ServiceInstanceState::new(None)
    }
}

impl Registration<CatalogRegistration> for ConsulRegistration {
    fn get_service(&self) -> CatalogRegistration {
        self.service.clone()
    }
}

/// Builds a registration step by step.
pub trait RegistrationBuilder<R, S> where R: Registration<S> {
    fn service_name(self, name: String) -> Self;

    fn tags(self, tags: Vec<String>) -> Self;

    fn instance_id(self, id: String) -> Self;

    fn host(self, host: String) -> Self;

    fn port(self, port: u32) -> Self;

    fn version(self, version: String) -> Self;

    fn status(self, status: String) -> Self;

    fn metadata(self, metadata: Vec<(String, String)>) -> Self;

    fn domain(self, domain: String) -> Self;

    fn discovery_options(self, options: DiscoveryOptions) -> Self;

    fn heartbeat_options(self, options: HeartbeatOptions) -> Self;

    fn build(self) -> R;
}

/// A client of a service that can be connected and closed.
pub trait ReactiveClient<T> {
    fn connect(self);

    fn client(self) -> T;

    fn close(self);
}

/// The tags of a built registration: the given ones, then `service`,
/// `north` and the version.
pub open spec fn built_tags(tags: Seq<Seq<char>>, version: Seq<char>) -> Seq<Seq<char>> {
    tags + seq!["service"@, "north"@, version]
}

/// The builder of a catalog registration.
#[derive(Clone, Debug)]
pub struct ConsulRegistrationBuilder {
    _service_name: Option<String>,
    _port: Option<u32>,
    _host: Option<String>,
    _status: Option<String>,
    _version: Option<String>,
    _tags: Option<Vec<String>>,
    _domain: Option<String>,
    _meta: Option<Vec<(String, String)>>,
    _instance_id: Option<String>,
    _heartbeat_options: HeartbeatOptions,
    _discovery_options: Option<ConsulDiscoveryOption>,
}

impl ConsulRegistrationBuilder {
    /// Whether the builder holds a service name, a host, a port and
    /// discovery options, which `build` needs.
    pub closed spec fn ready(&self) -> bool {
        &&& self._service_name is Some
        &&& self._host is Some
        &&& self._port is Some
        &&& self._discovery_options is Some
    }

    pub closed spec fn host_of(&self) -> Option<String> {
        self._host
    }

    pub closed spec fn port_of(&self) -> Option<u32> {
        self._port
    }

    pub closed spec fn name_of(&self) -> Option<String> {
        self._service_name
    }

    pub closed spec fn instance_id_of(&self) -> Option<String> {
        self._instance_id
    }

    pub closed spec fn discovery_of(&self) -> Option<ConsulDiscoveryOption> {
        self._discovery_options
    }

    /// The tags given so far, none where unset.
    pub closed spec fn tags_of(&self) -> Seq<Seq<char>> {
        match self._tags {
            Some(t) => strings_view(t@),
            None => Seq::empty(),
        }
    }

    /// The metadata given so far, none where unset.
    pub closed spec fn meta_of(&self) -> Seq<(Seq<char>, Seq<char>)> {
        match self._meta {
            Some(m) => pairs_view(m@),
            None => Seq::empty(),
        }
    }

    /// The version in force.
    pub closed spec fn version_of(&self) -> Seq<char> {
        match self._version {
            Some(v) => v@,
            None => "latest"@,
        }
    }

    /// The domain in force.
    pub closed spec fn domain_of(&self) -> Seq<char> {
        match self._domain {
            Some(d) => d@,
            None => "north"@,
        }
    }

    /// A builder with the given address, version `latest` and domain `north`.
    pub fn new(host: Option<String>, port: Option<u32>) -> (r: ConsulRegistrationBuilder)
        ensures
            r.host_of() == host,
            r.port_of() == port,
            r.name_of() is None,
            !r.ready(),
    {
        ConsulRegistrationBuilder {
            _service_name: None,
            _port: port,
            _host: host,
            _status: None,
            _version: Some(String::from_str("latest")),
            _tags: None,
            _domain: Some(String::from_str("north")),
            _meta: None,
            _instance_id: None,
            _heartbeat_options: HeartbeatOptions { enabled: false, ttl_in_seconds: None },
            _discovery_options: None,
        }
    }

    /// Whether `build` may be called.
    pub fn is_ready(&self) -> (r: bool)
        ensures
            r == self.ready(),
    {
        self._service_name.is_some() && self._host.is_some() && self._port.is_some()
            && self._discovery_options.is_some()
    }

    /// Builds the registration.  Its id is the instance id (or else the
    /// service name), a dash and a fresh random suffix of 21 characters.
    pub fn build_registration(self) -> (r: ConsulRegistration)
        requires
            self.ready(),
        ensures
            ({
                let base = match self.instance_id_of() {
                    Some(i) => i@,
                    None => self.name_of()->Some_0@,
                };
                &&& r.service().ID@.len() == base.len() + 22
                &&& r.service().ID@.take(base.len() as int + 1) == base + "-"@
                &&& r.service().Address == self.host_of()->Some_0
                &&& r.service().Service matches Some(s) && s.ID == self.name_of()->Some_0
                    && s.Port == (self.port_of()->Some_0 as u16) && s.Address
                    == self.host_of()->Some_0
                &&& r.discovery() == self.discovery_of()->Some_0
                &&& r.service().Check matches Some(c) && c.ServiceID == r.service().ID
                    && c.Name@ == self.name_of()->Some_0@ + "Status"@
                    && c.ServiceName == self.name_of()->Some_0
                &&& r.service().Service->Some_0.Tags matches Some(t) && strings_view(t@)
                    == built_tags(self.tags_of(), self.version_of())
                &&& pairs_view(r.service().NodeMeta@) == text_put(
                    text_put(
                        text_put(self.meta_of(), "domain"@, self.domain_of()),
                        "version"@,
                        self.version_of(),
                    ),
                    "secure"@,
                    if self.discovery_of()->Some_0.scheme@ == "https"@ {
                        "true"@
                    } else {
                        "false"@
                    },
                )
            }),
    {
        let svc_name = self._service_name.unwrap();
        let host = self._host.unwrap();
        let port = self._port.unwrap();
        let dso = self._discovery_options.unwrap();
        let domain = match self._domain {
            Some(d) => d,
            None => String::from_str("north"),
        };
        let version = match self._version {
            Some(v) => v,
            None => String::from_str("latest"),
        };
        let https = String::from_str("https");
        let is_secure = dso.scheme == https;
        proof {
            reveal_strlit("https");
            reveal_strlit("latest");
            reveal_strlit("north");
            reveal_strlit("service");
            reveal_strlit("domain");
            reveal_strlit("version");
            reveal_strlit("secure");
            reveal_strlit("true");
            reveal_strlit("false");
        }
        let ghost tags_in = self.tags_of();
        let mut tags = match self._tags {
            Some(t) => t,
            None => Vec::new(),
        };
        tags.push(String::from_str("service"));
        tags.push(String::from_str("north"));
        tags.push(version.clone());
        assert(strings_view(tags@) =~= built_tags(tags_in, version@));
        let mut meta = match self._meta {
            Some(m) => m,
            None => Vec::new(),
        };
        assert(pairs_view(meta@) =~= self.meta_of());
        put_text(&mut meta, String::from_str("domain"), domain);
        put_text(&mut meta, String::from_str("version"), version);
        put_text(
            &mut meta,
            String::from_str("secure"),
            if is_secure {
                String::from_str("true")
            } else {
                String::from_str("false")
            },
        );
        let mut instance_id = match self._instance_id {
            Some(iid) => iid,
            None => svc_name.clone(),
        };
        let ghost base = instance_id@;
        instance_id.append("-");
        let suffix = random_id();
        instance_id.append(suffix.as_str());
        proof {
            reveal_strlit("-");
            assert(instance_id@.take(base.len() as int + 1) =~= base + "-"@);
        }
        let mut check_name = svc_name.clone();
        check_name.append("Status");
        proof {
            reveal_strlit("Status");
        }
        let serv = CatalogRegistration {
            ID: instance_id.clone(),
            Node: String::new(),
            Address: host.clone(),
            TaggedAddresses: Vec::new(),
            NodeMeta: meta,
            Datacenter: String::new(),
            Service: Some(
                AgentService {
                    ID: svc_name.clone(),
                    Service: String::new(),
                    Tags: Some(tags),
                    Port: port as u16,
                    Address: host,
                    EnableTagOverride: false,
                    CreateIndex: 0,
                    ModifyIndex: 0,
                },
            ),
            Check: Some(
                AgentCheck {
                    Node: String::new(),
                    CheckID: String::new(),
                    Name: check_name,
                    Status: String::new(),
                    Notes: String::new(),
                    Output: String::new(),
                    ServiceID: instance_id,
                    ServiceName: svc_name,
                },
            ),
            SkipNodeUpdate: false,
        };
        ConsulRegistration::new(serv, dso)
    }
}

impl RegistrationBuilder<ConsulRegistration, CatalogRegistration> for ConsulRegistrationBuilder {
    fn service_name(self, name: String) -> Self {
        let mut b = self;
        b._service_name = Some(name);
        b
    }

    fn tags(self, tags: Vec<String>) -> Self {
        let mut b = self;
        b._tags = Some(tags);
        b
    }

    fn instance_id(self, id: String) -> Self {
        let mut b = self;
        b._instance_id = Some(id);
        b
    }

    fn host(self, host: String) -> Self {
        let mut b = self;
        b._host = Some(host);
        b
    }

    fn port(self, port: u32) -> Self {
        let mut b = self;
        b._port = Some(port);
        b
    }

    fn version(self, version: String) -> Self {
        let mut b = self;
        b._version = Some(version);
        b
    }

    fn status(self, status: String) -> Self {
        let mut b = self;
        b._status = Some(status);
        b
    }

    fn metadata(self, metadata: Vec<(String, String)>) -> Self {
        let mut b = self;
        b._meta = Some(metadata);
        b
    }

    fn domain(self, domain: String) -> Self {
        let mut b = self;
        b._domain = Some(domain);
        b
    }

    fn discovery_options(self, options: DiscoveryOptions) -> Self {
        let mut b = self;
        b._discovery_options = Some(
            ConsulDiscoveryOption {
                discovery_options: options,
                scheme: String::new(),
                fail_fast: None,
                notes: None,
                script: None,
                deregister_critical_service_after: None,
            },
        );
        b
    }

    fn heartbeat_options(self, options: HeartbeatOptions) -> Self {
        let mut b = self;
        b._heartbeat_options = options;
        b
    }

    /// Builds the registration (see `build_registration`); a builder that is
    /// not ready gives an empty registration.
    fn build(self) -> ConsulRegistration {
        let b = self;
        if b.is_ready() {
            b.build_registration()
        } else {
            ConsulRegistration::new(
                CatalogRegistration {
                    ID: String::new(),
                    Node: String::new(),
                    Address: String::new(),
                    TaggedAddresses: Vec::new(),
                    NodeMeta: Vec::new(),
                    Datacenter: String::new(),
                    Service: None,
                    Check: None,
                    SkipNodeUpdate: false,
                },
                ConsulDiscoveryOption {
                    discovery_options: empty_discovery_options(),
                    scheme: String::new(),
                    fail_fast: None,
                    notes: None,
                    script: None,
                    deregister_critical_service_after: None,
                },
            )
        }
    }
}

/// Discovery options with every field empty.
pub fn empty_discovery_options() -> (r: DiscoveryOptions)
    ensures
        r.service_id@.len() == 0,
        r.scheme@.len() == 0,
        r.header@.len() == 0,
{
    DiscoveryOptions {
        service_id: String::new(),
        service_name: String::new(),
        interval: 0,
        fail_fast: false,
        scheme: String::new(),
        timeout: None,
        body: None,
        header: Vec::new(),
        http: String::new(),
        skip_verify_tls: None,
        method: crate::instance::DiscoveryHttpMethods::Get,
    }
}

/// What a catalog service registry is made from.
#[derive(Clone, Debug)]
pub struct ConsulRegistryOptions {
    pub service: IService,
    pub discovery: Option<ConsulDiscoveryOption>,
    pub heartbeat: Option<HeartbeatOptions>,
}

/// A registry that registers one service with the catalog.
#[derive(Clone, Debug)]
pub struct ConsulServiceRegistry {
    registration: ConsulRegistration,
    options: ConsulRegistryOptions,
}

impl ConsulServiceRegistry {
    pub closed spec fn registration(&self) -> ConsulRegistration {
        self.registration
    }

    pub closed spec fn options(&self) -> ConsulRegistryOptions {
        self.options
    }

    /// The registry for `options`, whose service is registered under its
    /// id, name, host and port, with the given discovery options.
    pub fn new(options: ConsulRegistryOptions) -> (r: ConsulServiceRegistry)
        requires
            options.heartbeat is Some,
            options.discovery is Some,
        ensures
            r.options() == options,
            r.registration().service().Address == options.service.host,
            r.registration().service().Service matches Some(s) && s.ID == options.service.name
                && s.Address == options.service.host && s.Port == (options.service.port as u16),
            r.registration().service().ID@.take(options.service.id@.len() as int + 1)
                == options.service.id@ + "-"@,
            r.registration().service().ID@.len() == options.service.id@.len() + 22,
    {
        let discovery = match &options.discovery {
            Some(d) => d.discovery_options.clone(),
            None => empty_discovery_options(),
        };
        let mut builder = ConsulRegistrationBuilder::new(
            Some(options.service.host.clone()),
            Some(options.service.port),
        );
        builder._discovery_options = Some(
            ConsulDiscoveryOption {
                discovery_options: discovery,
                scheme: String::new(),
                fail_fast: None,
                notes: None,
                script: None,
                deregister_critical_service_after: None,
            },
        );
        builder._heartbeat_options = options.heartbeat.unwrap();
        builder._tags = Some(
            match &options.service.tag {
                Some(t) => copy_strings(t),
                None => Vec::new(),
            },
        );
        builder._service_name = Some(options.service.name.clone());
        builder._meta = Some(
            match &options.service.metadata {
                Some(m) => copy_pairs(m),
                None => Vec::new(),
            },
        );
        builder._instance_id = Some(options.service.id.clone());
        let registration = builder.build_registration();
        ConsulServiceRegistry { registration, options }
    }
}

/// The state of one health check.
#[derive(Clone, Debug)]
pub struct HealthCheck {
    pub Node: String,
    pub CheckID: String,
    pub Name: String,
    pub Status: String,
    pub ServiceID: String,
    pub ServiceName: String,
}

/// A service instance as the health endpoint lists it: the service, the
/// node it runs on, and its checks.
#[derive(Clone, Debug)]
pub struct ServiceEntry {
    pub Node: Node,
    pub Service: AgentService,
    pub Checks: Vec<HealthCheck>,
}

/// The host of a listed instance: the service address, or else the node
/// address, or else the node name.
pub open spec fn host_spec(entry: ServiceEntry) -> Seq<char> {
    if entry.Service.Address@.len() > 0 {
        entry.Service.Address@
    } else if entry.Node.Address@.len() > 0 {
        entry.Node.Address@
    } else {
        entry.Node.Node@
    }
}

/// The host of a listed instance (see `host_spec`).
pub fn find_host(entry: &ServiceEntry) -> (r: String)
    ensures
        r@ == host_spec(*entry),
{
    if entry.Service.Address.as_str().unicode_len() > 0 {
        entry.Service.Address.clone()
    } else if entry.Node.Address.as_str().unicode_len() > 0 {
        entry.Node.Address.clone()
    } else {
        entry.Node.Node.clone()
    }
}

/// The value bound to `k` among the pairs, if any.
pub open spec fn text_get(s: Seq<(Seq<char>, Seq<char>)>, k: Seq<char>) -> Option<Seq<char>> {
    let p = text_slot(s, k, 0);
    if p < s.len() {
        Some(s[p].1)
    } else {
        None
    }
}

/// Looks up `k` among the pairs.
pub fn get_text(pairs: &Vec<(String, String)>, k: &str) -> (r: Option<String>)
    ensures
        r matches Some(v) ==> text_get(pairs_view(pairs@), k@) == Some(v@),
        r is None ==> text_get(pairs_view(pairs@), k@) is None,
{
    let ghost pv = pairs_view(pairs@);
    let key = k.to_owned();
    let mut i: usize = 0;
    while i < pairs.len()
        invariant
            pv == pairs_view(pairs@),
            key@ == k@,
            i <= pairs.len(),
            text_slot(pv, k@, 0) == text_slot(pv, k@, i as int),
        decreases pairs.len() - i,
    {
        if pairs[i].0 == key {
            return Some(pairs[i].1.clone());
        }
        i = i + 1;
    }
    None
}

/// The options of the instance that a listed service entry describes: its
/// host (see `host_spec`), the node metadata, secure where the metadata
/// says `secure` is `true`, and the status of its first check.
pub fn instance_options_for(entry: &ServiceEntry) -> (r: ServiceInstanceOptions)
    requires
        entry.Checks.len() > 0,
    ensures
        r.host@ == host_spec(*entry),
        r.instance_id == entry.Service.ID,
        r.service_id == entry.Service.ID,
        r.node_id == Some(entry.Node.ID),
        r.port == entry.Service.Port as u32,
        r.secure == (text_get(pairs_view(entry.Node.Meta@), "secure"@) == Some("true"@)),
        r.status == status_of_text(entry.Checks@[0].Status@),
        r.state is None,
{
    let host = find_host(entry);
    let secure = match get_text(&entry.Node.Meta, "secure") {
        Some(v) => {
            let t = String::from_str("true");
            proof {
                reveal_strlit("true");
            }
            v == t
        },
        None => false,
    };
    ServiceInstanceOptions {
        instance_id: entry.Service.ID.clone(),
        node_id: Some(entry.Node.ID.clone()),
        service_id: entry.Service.ID.clone(),
        host,
        status: ServiceStatus::from_text(entry.Checks[0].Status.as_str()),
        tags: entry.Service.Tags.clone(),
        port: entry.Service.Port as u32,
        secure,
        state: None,
        metadata: Some(entry.Node.Meta.clone()),
    }
}

} // verus!
