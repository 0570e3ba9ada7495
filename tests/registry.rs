use north::consul::{
    find_host, instance_options_for, AgentService, HealthCheck, Node, ServiceEntry, put_text, CatalogRegistration, ConsulRegistration, ConsulRegistrationBuilder, RegistrationBuilder};
use north::instance::{
    decimal_text, uri_of, DefaultServiceInstance, DiscoveryHttpMethods, DiscoveryOptions, HeartbeatOptions, IService,
    Registration, ServiceInstance, ServiceInstanceOptions,
};
use north::consul::{ConsulDiscoveryOption, ConsulRegistryOptions, ConsulServiceRegistry};
use north::mdns::{MdnRegistryOptions, MdnsRegistrationBuilder, MdnsServiceRegistry};
use north::registry::{ServiceInstanceState, ServiceStatus};
use north::service::{ErrorResponse, NorthServiceOptions};

fn discovery(scheme: &str) -> DiscoveryOptions {
    DiscoveryOptions {
        service_id: "svc".to_string(),
        service_name: "svc".to_string(),
        interval: 10,
        fail_fast: false,
        scheme: scheme.to_string(),
        timeout: None,
        body: None,
        header: Vec::new(),
        http: String::new(),
        skip_verify_tls: None,
        method: DiscoveryHttpMethods::default(),
    }
}

fn service_options(secure: bool) -> ServiceInstanceOptions {
    ServiceInstanceOptions {
        instance_id: "test-service-1".to_string(),
        node_id: Some("test-node-1".to_string()),
        service_id: "test-service".to_string(),
        host: "127.0.5.0".to_string(),
        status: ServiceStatus::default(),
        tags: Some(vec!["service".to_string(), "rust".to_string()]),
        port: 8080,
        secure,
        state: None,
        metadata: Some(vec![("region".to_string(), "USA".to_string())]),
    }
}

#[test]
fn it_works() {
    let result = 2 + 2;
    assert_eq!(result, 4);
}

#[test]
fn default_instance_reads_its_options() {
    let service = DefaultServiceInstance::new(service_options(false));
    assert_eq!(service.get_host(), "127.0.5.0");
    assert_eq!(service.get_port(), 8080);
    assert!(!service.is_secure());
    assert_eq!(service.get_scheme(), "http");
    assert_eq!(service.get_uri(), "http://127.0.5.0:8080");
    assert_eq!(service.get_node_id(), "test-node-1");
    assert_eq!(service.get_service_id(), "test-service");
    assert_eq!(service.get_instance_id(), "test-service-1");
    assert_eq!(service.get_tags(), vec!["service".to_string(), "rust".to_string()]);
    assert_eq!(service.get_metadata(), vec![("region".to_string(), "USA".to_string())]);
    assert_eq!(service.get_status(), "critical");
}

#[test]
fn secure_instance_uses_https() {
    let mut opts = service_options(true);
    opts.node_id = None;
    let service = DefaultServiceInstance::new(opts);
    assert_eq!(service.get_scheme(), "https");
    assert_eq!(service.get_uri(), "https://127.0.5.0:8080");
    assert_eq!(service.get_node_id(), "test-service-1");
    assert!(service.get_state().is_healthy() == false);
}

#[test]
fn decimal_text_writes_digits() {
    assert_eq!(decimal_text(0), "0");
    assert_eq!(decimal_text(7), "7");
    assert_eq!(decimal_text(4294967295), "4294967295");
    assert_eq!(uri_of("http", "h", 80), "http://h:80");
}

#[test]
fn status_names_round_trip() {
    assert_eq!(ServiceStatus::Passing.to_string(), "passing");
    assert_eq!(ServiceStatus::Warning.to_string(), "warning");
    assert_eq!(ServiceStatus::Critical.to_string(), "critical");
    assert_eq!(ServiceStatus::from("warning".to_string()), ServiceStatus::Warning);
    assert_eq!(ServiceStatus::from("passing".to_string()), ServiceStatus::Passing);
    assert_eq!(ServiceStatus::from("other".to_string()), ServiceStatus::Critical);
}

#[test]
fn state_counters_and_response_time() {
    let mut st = ServiceInstanceState::new(Some(false));
    assert!(!st.is_healthy());
    assert_eq!(st.increment_request_counts(), 1);
    assert_eq!(st.increment_request_counts(), 2);
    assert_eq!(st.increment_failure_counts(), 1);
    st.set_response_time(100);
    st.set_response_time(40);
    assert_eq!(st.get_active_requests_count(Some(0)), 0);
    assert_eq!(st.increment_active_requests_at(10), 1);
    assert_eq!(st.active_requests_count_at(10), 1);
    assert_eq!(st.active_requests_count_at(5000), 0);
    assert_eq!(st.decrement_active_requests_at(20), 0);
    st.set_connection_failed_time_at(Some("refused".to_string()), 30);
    assert!(!st.is_healthy());
}

#[test]
fn state_active_requests_decrement() {
    let mut st = ServiceInstanceState::default();
    assert_eq!(st.increment_active_requests_at(1), 1);
    assert_eq!(st.increment_active_requests_at(2), 2);
    assert_eq!(st.decrement_active_requests_at(3), 1);
    assert_eq!(st.decrement_active_requests_at(4), 0);
    assert_eq!(st.decrement_active_requests_at(5), 0);
}

#[test]
fn consul_builder_builds_registration() {
    let b = ConsulRegistrationBuilder::new(None, None);
    assert!(!b.is_ready());
    let b = b
        .discovery_options(discovery("https"))
        .heartbeat_options(HeartbeatOptions::default())
        .tags(vec!["web".to_string()])
        .service_name("orders".to_string())
        .metadata(vec![("region".to_string(), "eu".to_string())])
        .host("10.0.0.1".to_string())
        .port(9000);
    assert!(b.is_ready());
    let reg = b.build();
    let id = reg.get_instance_id();
    assert!(id.starts_with("orders-"));
    assert_eq!(id.len(), "orders-".len() + 21);
    assert_eq!(reg.get_host(), "10.0.0.1");
    assert_eq!(reg.get_port(), 9000);
    assert_eq!(reg.get_tags(), vec!["web", "service", "north", "latest"]);
    let meta = reg.get_metadata();
    assert!(meta.contains(&("region".to_string(), "eu".to_string())));
    assert!(meta.contains(&("domain".to_string(), "north".to_string())));
    assert!(meta.contains(&("version".to_string(), "latest".to_string())));
    assert!(meta.contains(&("secure".to_string(), "false".to_string())));
    let svc: CatalogRegistration = reg.get_service();
    assert_eq!(svc.Check.unwrap().Name, "ordersStatus");
}

#[test]
fn consul_registration_reads_scheme() {
    let reg = ConsulRegistrationBuilder::new(Some("h".to_string()), Some(1))
        .discovery_options(discovery("http"))
        .service_name("s".to_string())
        .instance_id("inst".to_string())
        .build();
    assert!(reg.get_instance_id().starts_with("inst-"));
    assert_eq!(reg.get_scheme(), "");
    assert!(!reg.is_secure());
    let _copy: ConsulRegistration = reg.clone();
}

#[test]
fn mdns_registry_registers_its_service() {
    let service = IService {
        name: "orders".to_string(),
        id: "orders-1".to_string(),
        port: 7000,
        region: None,
        zone: None,
        host: "192.168.0.2".to_string(),
        secure: false,
        metadata: None,
        tag: None,
        state: ServiceInstanceState::new(None),
    };
    let registry = MdnsServiceRegistry::new(MdnRegistryOptions {
        service,
        discovery: Some(discovery("http")),
        heartbeat: Some(HeartbeatOptions::default()),
    });
    let _ = registry;
    let reg = MdnsRegistrationBuilder::new(Some("192.168.0.2".to_string()), Some(7000))
        .discovery_options(discovery("http"))
        .service_name("orders".to_string())
        .build();
    assert!(reg.get_instance_id().starts_with("orders-"));
    assert_eq!(reg.get_node_id(), reg.get_instance_id());
    assert!(reg.is_secure());
    assert_eq!(reg.get_uri(), "http://192.168.0.2:7000");
    assert_eq!(reg.get_service().service_name, "orders");
}

#[test]
fn put_text_replaces_or_appends() {
    let mut pairs = vec![("a".to_string(), "1".to_string())];
    put_text(&mut pairs, "b".to_string(), "2".to_string());
    put_text(&mut pairs, "a".to_string(), "3".to_string());
    assert_eq!(pairs, vec![("a".to_string(), "3".to_string()), ("b".to_string(), "2".to_string())]);
}

#[test]
fn service_options_defaults() {
    let o = NorthServiceOptions::default();
    assert_eq!(o.address.as_deref(), Some("127.0.0.1"));
    assert_eq!(o.port, Some(5000));
    assert_eq!(o.keep_alive, 1);
    let e = ErrorResponse::from_message("bad".to_string());
    assert_eq!(e.errors(), &vec!["bad".to_string()]);
}

fn entry(service_address: &str, node_address: &str, meta: Vec<(String, String)>) -> ServiceEntry {
    ServiceEntry {
        Node: Node {
            ID: "node-1".to_string(),
            Node: "node-name".to_string(),
            Address: node_address.to_string(),
            Datacenter: "dc1".to_string(),
            TaggedAddresses: Vec::new(),
            Meta: meta,
            CreateIndex: 0,
            ModifyIndex: 0,
        },
        Service: AgentService {
            ID: "orders-1".to_string(),
            Service: "orders".to_string(),
            Tags: Some(vec!["web".to_string()]),
            Port: 8081,
            Address: service_address.to_string(),
            EnableTagOverride: false,
            CreateIndex: 0,
            ModifyIndex: 0,
        },
        Checks: vec![HealthCheck {
            Node: "node-1".to_string(),
            CheckID: "c".to_string(),
            Name: "n".to_string(),
            Status: "passing".to_string(),
            ServiceID: "orders-1".to_string(),
            ServiceName: "orders".to_string(),
        }],
    }
}

#[test]
fn find_host_prefers_service_then_node_address() {
    assert_eq!(find_host(&entry("10.0.0.5", "10.0.0.1", Vec::new())), "10.0.0.5");
    assert_eq!(find_host(&entry("", "10.0.0.1", Vec::new())), "10.0.0.1");
    assert_eq!(find_host(&entry("", "", Vec::new())), "node-name");
}

#[test]
fn listed_entry_becomes_instance_options() {
    let e = entry("", "10.0.0.1", vec![("secure".to_string(), "true".to_string())]);
    let o = instance_options_for(&e);
    assert_eq!(o.host, "10.0.0.1");
    assert_eq!(o.instance_id, "orders-1");
    assert_eq!(o.node_id.as_deref(), Some("node-1"));
    assert_eq!(o.port, 8081);
    assert!(o.secure);
    assert_eq!(o.status, ServiceStatus::Passing);
    let service = DefaultServiceInstance::new(o);
    assert_eq!(service.get_uri(), "https://10.0.0.1:8081");
    let o = instance_options_for(&entry("h", "", Vec::new()));
    assert!(!o.secure);
}

#[test]
fn consul_registry_builds_its_registration() {
    let service = IService {
        name: "orders".to_string(),
        id: "orders-1".to_string(),
        port: 7000,
        region: None,
        zone: None,
        host: "10.1.1.1".to_string(),
        secure: false,
        metadata: None,
        tag: Some(vec!["web".to_string()]),
        state: ServiceInstanceState::new(None),
    };
    let registry = ConsulServiceRegistry::new(ConsulRegistryOptions {
        service,
        discovery: Some(ConsulDiscoveryOption {
            discovery_options: discovery("http"),
            scheme: "http".to_string(),
            fail_fast: None,
            notes: None,
            script: None,
            deregister_critical_service_after: None,
        }),
        heartbeat: Some(HeartbeatOptions::default()),
    });
    let _ = registry.clone();
}
