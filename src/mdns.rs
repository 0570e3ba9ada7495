use vstd::prelude::*;
use vstd::string::StringExecFns;
use crate::consul::{empty_discovery_options, random_id, RegistrationBuilder};
use crate::consul::pairs_view;
use crate::instance::{
    copy_pairs, copy_strings, opt_pairs, opt_strings, uri_of, DiscoveryOptions, HeartbeatOptions,
    IService, Registration, ServiceInstance,
};
use crate::text::strings_view;
use crate::registry::ServiceInstanceState;

verus! {

/// A service as it is announced on the local network.
#[derive(Clone, Debug)]
pub struct MdnsContext {
    pub service_name: String,
    pub node_id: String,
    pub service_id: String,
    pub instance_id: String,
    pub host: String,
    pub status: String,
    pub port: u32,
    pub secure: bool,
    pub metadata: Option<Vec<(String, String)>>,
    pub tags: Option<Vec<String>>,
}

/// A service registration for the local network.
#[derive(Clone, Debug)]
pub struct MdnsRegistration {
    service: MdnsContext,
    discovery_options: DiscoveryOptions,
}

impl MdnsRegistration {
    pub closed spec fn service(&self) -> MdnsContext {
        self.service
    }

    pub closed spec fn discovery(&self) -> DiscoveryOptions {
        self.discovery_options
    }

    /// The registration of `service`, checked as `discovery_options` says.
    pub fn new(service: MdnsContext, discovery_options: DiscoveryOptions) -> (r: MdnsRegistration)
        ensures
            r.service() == service,
            r.discovery() == discovery_options,
    {
        MdnsRegistration { service, discovery_options }
    }
}

impl ServiceInstance for MdnsRegistration {
    closed spec fn instance_id_spec(&self) -> Seq<char> {
        self.service.instance_id@
    }

    closed spec fn service_id_spec(&self) -> Seq<char> {
        self.service.service_id@
    }

    closed spec fn host_spec(&self) -> Seq<char> {
        self.service.host@
    }

    closed spec fn port_spec(&self) -> u32 {
        self.service.port
    }

    closed spec fn secure_spec(&self) -> bool {
        self.service.secure
    }

    closed spec fn scheme_spec(&self) -> Seq<char> {
        self.discovery_options.scheme@
    }

    closed spec fn metadata_spec(&self) -> Seq<(Seq<char>, Seq<char>)> {
        opt_pairs(self.service.metadata)
    }

    closed spec fn tags_spec(&self) -> Seq<Seq<char>> {
        opt_strings(self.service.tags)
    }

    closed spec fn status_spec(&self) -> Seq<char> {
        self.service.status@
    }

    closed spec fn node_id_spec(&self) -> Seq<char> {
        self.service.node_id@
    }

    closed spec fn state_spec(&self) -> Option<ServiceInstanceState> {
        None
    }

    fn get_instance_id(&self) -> String {
        self.service.instance_id.clone()
    }

    fn get_service_id(&self) -> String {
        self.service.service_id.clone()
    }

    fn get_host(&self) -> String {
        self.service.host.clone()
    }

    fn get_port(&self) -> u32 {
        self.service.port
    }

    fn is_secure(&self) -> bool {
        self.service.secure
    }

    fn get_uri(&self) -> String {
        uri_of(
            self.discovery_options.scheme.as_str(),
            self.service.host.as_str(),
            self.service.port,
        )
    }

    fn get_scheme(&self) -> String {
        self.discovery_options.scheme.clone()
    }

    fn get_metadata(&self) -> Vec<(String, String)> {
        match &self.service.metadata {
            Some(m) => copy_pairs(m),
            None => {
                let v: Vec<(String, String)> = Vec::new();
                assert(pairs_view(v@) =~= Seq::empty());
                v
            },
        }
    }

    fn get_tags(&self) -> Vec<String> {
        match &self.service.tags {
            Some(t) => copy_strings(t),
            None => {
                let v: Vec<String> = Vec::new();
                assert(strings_view(v@) =~= Seq::empty());
                v
            },
        }
    }

    fn get_status(&self) -> String {
        self.service.status.clone()
    }

    fn get_node_id(&self) -> String {
        self.service.node_id.clone()
    }

    fn get_state(self) -> ServiceInstanceState {
        ServiceInstanceState::new(None)
    }
}

impl Registration<MdnsContext> for MdnsRegistration {
    fn get_service(&self) -> MdnsContext {
        self.service.clone()
    }
}

/// The builder of a local-network registration.
#[derive(Clone, Debug)]
pub struct MdnsRegistrationBuilder {
    _service_name: Option<String>,
    _port: Option<u32>,
    _host: Option<String>,
    _status: Option<String>,
    _version: Option<String>,
    _tags: Option<Vec<String>>,
    _domain: Option<String>,
    _meta: Option<Vec<(String, String)>>,
    _instance_id: Option<String>,
    _heartbeat_options: HeartbeatOptions,
    _discovery_options: Option<DiscoveryOptions>,
}

impl MdnsRegistrationBuilder {
    /// Whether the builder holds a service name, a host, a port and
    /// discovery options, which `build` needs.
    pub closed spec fn ready(&self) -> bool {
        &&& self._service_name is Some
        &&& self._host is Some
        &&& self._port is Some
        &&& self._discovery_options is Some
    }

    pub closed spec fn host_of(&self) -> Option<String> {
        self._host
    }

    pub closed spec fn port_of(&self) -> Option<u32> {
        self._port
    }

    pub closed spec fn name_of(&self) -> Option<String> {
        self._service_name
    }

    pub closed spec fn instance_id_of(&self) -> Option<String> {
        self._instance_id
    }

    pub closed spec fn discovery_of(&self) -> Option<DiscoveryOptions> {
        self._discovery_options
    }

    /// A builder with the given address, version `latest` and domain `north`.
    pub fn new(host: Option<String>, port: Option<u32>) -> (r: MdnsRegistrationBuilder)
        ensures
            r.host_of() == host,
            r.port_of() == port,
            r.name_of() is None,
            !r.ready(),
    {
        MdnsRegistrationBuilder {
            _service_name: None,
            _port: port,
            _host: host,
            _status: None,
            _version: Some(String::from_str("latest")),
            _tags: None,
            _domain: Some(String::from_str("north")),
            _meta: None,
            _instance_id: None,
            _heartbeat_options: HeartbeatOptions { enabled: false, ttl_in_seconds: None },
            _discovery_options: None,
        }
    }

    /// Whether `build` may be called.
    pub fn is_ready(&self) -> (r: bool)
        ensures
            r == self.ready(),
    {
        self._service_name.is_some() && self._host.is_some() && self._port.is_some()
            && self._discovery_options.is_some()
    }

    /// Builds the registration.  Its instance id, which is also its node id,
    /// is the instance id (or else the service name), a dash and a fresh
    /// random suffix of 21 characters; the instance counts as secure.
    pub fn build_registration(self) -> (r: MdnsRegistration)
        requires
            self.ready(),
        ensures
            ({
                let base = match self.instance_id_of() {
                    Some(i) => i@,
                    None => self.name_of()->Some_0@,
                };
                &&& r.service().instance_id@.len() == base.len() + 22
                &&& r.service().instance_id@.take(base.len() as int + 1) == base + "-"@
                &&& r.service().node_id == r.service().instance_id
                &&& r.service().service_name == self.name_of()->Some_0
                &&& r.service().service_id == self.name_of()->Some_0
                &&& r.service().host == self.host_of()->Some_0
                &&& r.service().port == self.port_of()->Some_0
                &&& r.service().secure
                &&& r.service().status@.len() == 0
                &&& r.service().metadata is None
                &&& r.service().tags is None
                &&& r.discovery() == self.discovery_of()->Some_0
            }),
    {
        let svc_name = self._service_name.unwrap();
        let host = self._host.unwrap();
        let port = self._port.unwrap();
        let dso = self._discovery_options.unwrap();
        let mut instance_id = match self._instance_id {
            Some(iid) => iid,
            None => svc_name.clone(),
        };
        let ghost base = instance_id@;
        instance_id.append("-");
        let suffix = random_id();
        instance_id.append(suffix.as_str());
        proof {
            reveal_strlit("-");
            assert(instance_id@.take(base.len() as int + 1) =~= base + "-"@);
        }
        let ctx = MdnsContext {
            service_name: svc_name.clone(),
            node_id: instance_id.clone(),
            service_id: svc_name,
            instance_id,
            host,
            status: String::new(),
            port,
            secure: true,
            metadata: None,
            tags: None,
        };
        MdnsRegistration::new(ctx, dso)
    }
}

impl RegistrationBuilder<MdnsRegistration, MdnsContext> for MdnsRegistrationBuilder {
    fn service_name(self, name: String) -> Self {
        let mut b = self;
        b._service_name = Some(name);
        b
    }

    fn tags(self, tags: Vec<String>) -> Self {
        let mut b = self;
        b._tags = Some(tags);
        b
    }

    fn instance_id(self, id: String) -> Self {
        let mut b = self;
        b._instance_id = Some(id);
        b
    }

    fn host(self, host: String) -> Self {
        let mut b = self;
        b._host = Some(host);
        b
    }

    fn port(self, port: u32) -> Self {
        let mut b = self;
        b._port = Some(port);
        b
    }

    fn version(self, version: String) -> Self {
        let mut b = self;
        b._version = Some(version);
        b
    }

    fn status(self, status: String) -> Self {
        let mut b = self;
        b._status = Some(status);
        b
    }

    fn metadata(self, metadata: Vec<(String, String)>) -> Self {
        let mut b = self;
        b._meta = Some(metadata);
        b
    }

    fn domain(self, domain: String) -> Self {
        let mut b = self;
        b._domain = Some(domain);
        b
    }

    fn discovery_options(self, options: DiscoveryOptions) -> Self {
        let mut b = self;
        b._discovery_options = Some(options);
        b
    }

    fn heartbeat_options(self, options: HeartbeatOptions) -> Self {
        let mut b = self;
        b._heartbeat_options = options;
        b
    }

    /// Builds the registration (see `build_registration`); a builder that is
    /// not ready gives an empty registration.
    fn build(self) -> MdnsRegistration {
        let b = self;
        if b.is_ready() {
            b.build_registration()
        } else {
            MdnsRegistration::new(
                MdnsContext {
                    service_name: String::new(),
                    node_id: String::new(),
                    service_id: String::new(),
                    instance_id: String::new(),
                    host: String::new(),
                    status: String::new(),
                    port: 0,
                    secure: false,
                    metadata: None,
                    tags: None,
                },
                empty_discovery_options(),
            )
        }
    }
}

/// What a local-network service registry is made from.
#[derive(Clone, Debug)]
pub struct MdnRegistryOptions {
    pub service: IService,
    pub discovery: Option<DiscoveryOptions>,
    pub heartbeat: Option<HeartbeatOptions>,
}

/// A registry that announces one service on the local network.
#[derive(Clone, Debug)]
pub struct MdnsServiceRegistry {
    registration: MdnsRegistration,
    options: MdnRegistryOptions,
}

impl MdnsServiceRegistry {
    pub closed spec fn registration(&self) -> MdnsRegistration {
        self.registration
    }

    pub closed spec fn options(&self) -> MdnRegistryOptions {
        self.options
    }

    /// The registry for `options`, whose service is registered under its
    /// id, name, host and port.
    pub fn new(options: MdnRegistryOptions) -> (r: MdnsServiceRegistry)
        requires
            options.heartbeat is Some,
            options.discovery is Some,
        ensures
            r.options() == options,
            r.registration().service().service_name == options.service.name,
            r.registration().service().service_id == options.service.name,
            r.registration().service().host == options.service.host,
            r.registration().service().port == options.service.port,
            r.registration().service().instance_id@.take(options.service.id@.len() as int + 1)
                == options.service.id@ + "-"@,
            r.registration().service().node_id == r.registration().service().instance_id,
            r.registration().service().secure,
    {
        let discovery = match &options.discovery {
            Some(d) => d.clone(),
            None => empty_discovery_options(),
        };
        let mut builder = MdnsRegistrationBuilder::new(
            Some(options.service.host.clone()),
            Some(options.service.port),
        );
        builder._discovery_options = Some(discovery);
        builder._heartbeat_options = options.heartbeat.unwrap();
        builder._tags = Some(
            match &options.service.tag {
                Some(t) => copy_strings(t),
                None => Vec::new(),
            },
        );
        builder._service_name = Some(options.service.name.clone());
        builder._meta = Some(
            match &options.service.metadata {
                Some(m) => copy_pairs(m),
                None => Vec::new(),
            },
        );
        builder._instance_id = Some(options.service.id.clone());
        let registration = builder.build_registration();
        MdnsServiceRegistry { registration, options }
    }
}

} // verus!
