use vstd::prelude::*;
use vstd::string::{StrSliceExecFns, StringExecFns};
use crate::registry::{status_text, ServiceInstanceState, ServiceStatus};
use crate::consul::pairs_view;
use crate::text::strings_view;

verus! {

/// How a health check is requested over HTTP.
#[derive(Clone, Copy, Debug, PartialEq, Eq, Structural)]
pub enum DiscoveryHttpMethods {
    Post,
    Get,
    Delete,
    Patch,
    Options,
    Head,
    Put,
}

impl Default for DiscoveryHttpMethods {
    fn default() -> (r: Self)
        ensures
            r == DiscoveryHttpMethods::Get,
    {
        DiscoveryHttpMethods::Get
    }
}

/// How the registry checks an instance.
#[derive(Clone, Debug)]
pub struct DiscoveryOptions {
    pub service_id: String,
    pub service_name: String,
    pub interval: i64,
    pub fail_fast: bool,
    pub scheme: String,
    pub timeout: Option<i64>,
    pub body: Option<String>,
    pub header: Vec<(String, String)>,
    pub http: String,
    pub skip_verify_tls: Option<bool>,
    pub method: DiscoveryHttpMethods,
}

/// Whether an instance sends heartbeats, and how long one lives.
#[derive(Clone, Copy, Debug, PartialEq, Eq, Structural)]
pub struct HeartbeatOptions {
    pub enabled: bool,
    pub ttl_in_seconds: Option<i64>,
}

impl Default for HeartbeatOptions {
    fn default() -> (r: Self)
        ensures
            !r.enabled,
            r.ttl_in_seconds is None,
    {
        HeartbeatOptions { enabled: false, ttl_in_seconds: None }
    }
}

/// A service as the application describes it.
#[derive(Clone, Debug)]
pub struct IService {
    pub name: String,
    pub id: String,
    pub port: u32,
    pub region: Option<String>,
    pub zone: Option<String>,
    pub host: String,
    pub secure: bool,
    pub metadata: Option<Vec<(String, String)>>,
    pub tag: Option<Vec<String>>,
    pub state: ServiceInstanceState,
}

/// What an instance is made from.
#[derive(Clone, Debug)]
pub struct ServiceInstanceOptions {
    pub instance_id: String,
    pub node_id: Option<String>,
    pub service_id: String,
    pub host: String,
    pub status: ServiceStatus,
    pub tags: Option<Vec<String>>,
    pub port: u32,
    pub secure: bool,
    pub state: Option<ServiceInstanceState>,
    pub metadata: Option<Vec<(String, String)>>,
}

/// The read side of a registered service instance.
pub trait ServiceInstance {
    spec fn instance_id_spec(&self) -> Seq<char>;

    spec fn service_id_spec(&self) -> Seq<char>;

    spec fn host_spec(&self) -> Seq<char>;

    spec fn port_spec(&self) -> u32;

    spec fn secure_spec(&self) -> bool;

    spec fn scheme_spec(&self) -> Seq<char>;

    spec fn metadata_spec(&self) -> Seq<(Seq<char>, Seq<char>)>;

    spec fn tags_spec(&self) -> Seq<Seq<char>>;

    spec fn status_spec(&self) -> Seq<char>;

    spec fn node_id_spec(&self) -> Seq<char>;

    /// The state that the instance keeps, where it keeps one.
    spec fn state_spec(&self) -> Option<ServiceInstanceState>;

    fn get_instance_id(&self) -> (r: String)
        ensures
            r@ == self.instance_id_spec(),
    ;

    fn get_service_id(&self) -> (r: String)
        ensures
            r@ == self.service_id_spec(),
    ;

    fn get_host(&self) -> (r: String)
        ensures
            r@ == self.host_spec(),
    ;

    fn get_port(&self) -> (r: u32)
        ensures
            r == self.port_spec(),
    ;

    fn is_secure(&self) -> (r: bool)
        ensures
            r == self.secure_spec(),
    ;

    fn get_uri(&self) -> (r: String)
        ensures
            r@ == uri_text(self.scheme_spec(), self.host_spec(), self.port_spec()),
    ;

    fn get_scheme(&self) -> (r: String)
        ensures
            r@ == self.scheme_spec(),
    ;

    fn get_metadata(&self) -> (r: Vec<(String, String)>)
        ensures
            pairs_view(r@) == self.metadata_spec(),
    ;

    fn get_tags(&self) -> (r: Vec<String>)
        ensures
            strings_view(r@) == self.tags_spec(),
    ;

    fn get_status(&self) -> (r: String)
        ensures
            r@ == self.status_spec(),
    ;

    fn get_node_id(&self) -> (r: String)
        ensures
            r@ == self.node_id_spec(),
    ;

    fn get_state(self) -> (r: ServiceInstanceState)
        ensures
            self.state_spec() matches Some(st) ==> r == st,
    ;
}

/// A copy of the strings.
pub fn copy_strings(v: &Vec<String>) -> (r: Vec<String>)
    ensures
        strings_view(r@) == strings_view(v@),
{
    let mut out: Vec<String> = Vec::new();
    let mut i: usize = 0;
    while i < v.len()
        invariant
            i <= v.len(),
            out@.len() == i,
            forall|j: int| 0 <= j < i ==> #[trigger] out@[j]@ == v@[j]@,
        decreases v.len() - i,
    {
        out.push(v[i].clone());
        i = i + 1;
    }
    assert(strings_view(out@) =~= strings_view(v@));
    out
}

/// A copy of the pairs.
pub fn copy_pairs(v: &Vec<(String, String)>) -> (r: Vec<(String, String)>)
    ensures
        pairs_view(r@) == pairs_view(v@),
{
    let mut out: Vec<(String, String)> = Vec::new();
    let mut i: usize = 0;
    while i < v.len()
        invariant
            i <= v.len(),
            out@.len() == i,
            forall|j: int|
                0 <= j < i ==> #[trigger] out@[j].0@ == v@[j].0@ && out@[j].1@ == v@[j].1@,
        decreases v.len() - i,
    {
        out.push((v[i].0.clone(), v[i].1.clone()));
        i = i + 1;
    }
    assert(pairs_view(out@) =~= pairs_view(v@));
    out
}

/// The strings of an optional list, none where it is unset.
pub open spec fn opt_strings(v: Option<Vec<String>>) -> Seq<Seq<char>> {
    match v {
        Some(t) => strings_view(t@),
        None => Seq::empty(),
    }
}

/// The pairs of an optional list, none where it is unset.
pub open spec fn opt_pairs(v: Option<Vec<(String, String)>>) -> Seq<(Seq<char>, Seq<char>)> {
    match v {
        Some(m) => pairs_view(m@),
        None => Seq::empty(),
    }
}

/// The scheme of an instance: `https` where it is secure, else `http`.
pub open spec fn scheme_text(secure: bool) -> Seq<char> {
    if secure {
        "https"@
    } else {
        "http"@
    }
}

/// An instance as a registry records it.
pub trait Registration<T>: ServiceInstance {
    fn get_service(&self) -> T;
}

/// The decimal digits of `n`.
pub open spec fn decimal(n: nat) -> Seq<char>
    decreases n,
{
    if n < 10 {
        seq!["0123456789"@[n as int]]
    } else {
        decimal(n / 10) + seq!["0123456789"@[(n % 10) as int]]
    }
}

/// The decimal digits of `n`.
pub fn decimal_text(n: u32) -> (r: String)
    ensures
        r@ == decimal(n as nat),
    decreases n,
{
    let digits = "0123456789";
    proof {
        reveal_strlit("0123456789");
    }
    let d = (n % 10) as usize;
    let one = digits.substring_char(d, d + 1).to_owned();
    assert(one@ =~= seq!["0123456789"@[d as int]]);
    if n < 10 {
        one
    } else {
        let mut head = decimal_text(n / 10);
        head.append(one.as_str());
        head
    }
}

/// The address `scheme://host:port`.
pub open spec fn uri_text(scheme: Seq<char>, host: Seq<char>, port: u32) -> Seq<char> {
    scheme + "://"@ + host + ":"@ + decimal(port as nat)
}

/// Writes the address `scheme://host:port`.
pub fn uri_of(scheme: &str, host: &str, port: u32) -> (r: String)
    ensures
        r@ == uri_text(scheme@, host@, port),
{
    let mut s = scheme.to_owned();
    s.append("://");
    s.append(host);
    s.append(":");
    let p = decimal_text(port);
    s.append(p.as_str());
    s
}

/// A service instance built from its options.
#[derive(Clone, Debug)]
pub struct DefaultServiceInstance {
    state: ServiceInstanceState,
    options: ServiceInstanceOptions,
}

impl DefaultServiceInstance {
    pub closed spec fn state(&self) -> ServiceInstanceState {
        self.state
    }

    pub closed spec fn options(&self) -> ServiceInstanceOptions {
        self.options
    }

    /// The instance for `opts`; where `opts` holds no state, a fresh one.
    /// The options keep a copy of the state in force.
    pub fn new(opts: ServiceInstanceOptions) -> (r: Self)
        ensures
            opts.state matches Some(st) ==> r.state() == st,
            opts.state is None ==> r.state().is_fresh() && !r.state().fixed_weight(),
            r.options().state == Some(r.state()),
            r.options().instance_id == opts.instance_id,
            r.options().host == opts.host,
            r.options().port == opts.port,
            r.options().secure == opts.secure,
            r.options().node_id == opts.node_id,
            r.options().service_id == opts.service_id,
            r.options().status == opts.status,
            r.options().tags == opts.tags,
            r.options().metadata == opts.metadata,
            r.instance_id_spec() == opts.instance_id@,
            r.service_id_spec() == opts.service_id@,
            r.host_spec() == opts.host@,
            r.port_spec() == opts.port,
            r.secure_spec() == opts.secure,
            r.scheme_spec() == scheme_text(opts.secure),
            r.tags_spec() == opt_strings(opts.tags),
            r.metadata_spec() == opt_pairs(opts.metadata),
            r.status_spec() == status_text(opts.status),
            r.node_id_spec() == match opts.node_id {
                Some(n) => n@,
                None => opts.instance_id@,
            },
            r.state_spec() == Some(r.state()),
    {
        let mut options = opts;
        let state = match options.state {
            Some(s) => s,
            None => ServiceInstanceState::new(None),
        };
        options.state = Some(state.duplicate());
        DefaultServiceInstance { options, state }
    }
}

impl ServiceInstance for DefaultServiceInstance {
    closed spec fn instance_id_spec(&self) -> Seq<char> {
        self.options.instance_id@
    }

    closed spec fn service_id_spec(&self) -> Seq<char> {
        self.options.service_id@
    }

    closed spec fn host_spec(&self) -> Seq<char> {
        self.options.host@
    }

    closed spec fn port_spec(&self) -> u32 {
        self.options.port
    }

    closed spec fn secure_spec(&self) -> bool {
        self.options.secure
    }

    closed spec fn scheme_spec(&self) -> Seq<char> {
        scheme_text(self.options.secure)
    }

    closed spec fn metadata_spec(&self) -> Seq<(Seq<char>, Seq<char>)> {
        opt_pairs(self.options.metadata)
    }

    closed spec fn tags_spec(&self) -> Seq<Seq<char>> {
        opt_strings(self.options.tags)
    }

    closed spec fn status_spec(&self) -> Seq<char> {
        status_text(self.options.status)
    }

    closed spec fn node_id_spec(&self) -> Seq<char> {
        match self.options.node_id {
            Some(n) => n@,
            None => self.options.instance_id@,
        }
    }

    closed spec fn state_spec(&self) -> Option<ServiceInstanceState> {
        Some(self.state)
    }

    fn get_instance_id(&self) -> String {
        self.options.instance_id.clone()
    }

    fn get_service_id(&self) -> String {
        self.options.service_id.clone()
    }

    fn get_host(&self) -> String {
        self.options.host.clone()
    }

    fn get_port(&self) -> u32 {
        self.options.port
    }

    fn is_secure(&self) -> bool {
        self.options.secure
    }

    fn get_uri(&self) -> String {
        let scheme = self.get_scheme();
        uri_of(scheme.as_str(), self.options.host.as_str(), self.options.port)
    }

    fn get_scheme(&self) -> String {
        proof {
            reveal_strlit("https");
            reveal_strlit("http");
        }
        if self.options.secure {
            String::from_str("https")
        } else {
            String::from_str("http")
        }
    }

    fn get_metadata(&self) -> Vec<(String, String)> {
        match &self.options.metadata {
            Some(m) => copy_pairs(m),
            None => {
                let v: Vec<(String, String)> = Vec::new();
                assert(pairs_view(v@) =~= Seq::empty());
                v
            },
        }
    }

    fn get_tags(&self) -> Vec<String> {
        match &self.options.tags {
            Some(t) => copy_strings(t),
            None => {
                let v: Vec<String> = Vec::new();
                assert(strings_view(v@) =~= Seq::empty());
                v
            },
        }
    }

    fn get_status(&self) -> String {
        self.options.status.to_string()
    }

    fn get_node_id(&self) -> String {
        match &self.options.node_id {
            Some(n) => n.clone(),
            None => self.options.instance_id.clone(),
        }
    }

    fn get_state(self) -> ServiceInstanceState {
        self.state
    }
}

} // verus!
