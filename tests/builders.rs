use std::collections::BTreeMap;
use workload_builder::component::{Component, Container, Port, PortProtocol, ServicePort};
use workload_builder::job::JobBuilder;
use workload_builder::meta::{Labels, OwnerReference};
use workload_builder::service::ServiceBuilder;

fn port(name: &str, number: i32, protocol: PortProtocol) -> Port {
    Port { name: name.to_string(), container_port: number, protocol }
}

fn container(name: &str, ports: Vec<Port>) -> Container {
    Container { name: name.to_string(), image: format!("{}:latest", name), ports }
}

fn web_component() -> Component {
    Component { containers: vec![container("web", vec![port("http", 8080, PortProtocol::Tcp)])] }
}

fn batch_component() -> Component {
    Component { containers: vec![container("worker", vec![])] }
}

fn labels(pairs: &[(&str, &str)]) -> Labels {
    let mut m = BTreeMap::new();
    for (k, v) in pairs {
        m.insert(k.to_string(), v.to_string());
    }
    m
}

fn owner(name: &str) -> OwnerReference {
    OwnerReference {
        api_version: "core.example.dev/v1".to_string(),
        kind: "Configuration".to_string(),
        name: name.to_string(),
        uid: format!("uid-{}", name),
        controller: Some(true),
        block_owner_deletion: None,
    }
}

#[test]
fn new_job_has_defaults() {
    let job = JobBuilder::new("web-1".to_string(), web_component()).to_job();
    assert_eq!(job.metadata.name, "web-1");
    assert!(job.metadata.labels.is_empty());
    assert_eq!(job.metadata.owner_references, None);
    assert_eq!(job.spec.backoff_limit, Some(4));
    assert_eq!(job.spec.parallelism, None);
    assert_eq!(job.spec.template.metadata.name, "web-1");
    assert_eq!(job.spec.template.spec.restart_policy, "Never");
    assert_eq!(job.spec.template.spec.containers, web_component().containers);
}

#[test]
fn job_labels_replace_earlier_labels() {
    let job = JobBuilder::new("j".to_string(), batch_component())
        .labels(labels(&[("a", "1"), ("b", "2")]))
        .labels(labels(&[("c", "3")]))
        .to_job();
    assert_eq!(job.metadata.labels, labels(&[("c", "3")]));
    assert_eq!(job.spec.template.metadata.labels, labels(&[("c", "3")]));
}

#[test]
fn job_backoff_limit_ignores_other_settings() {
    let job = JobBuilder::new("j".to_string(), web_component())
        .labels(labels(&[("app", "x")]))
        .restart_policy("OnFailure".to_string())
        .owner_ref(Some(vec![owner("o")]))
        .parallelism(7)
        .to_job();
    assert_eq!(job.spec.backoff_limit, Some(4));
}

#[test]
fn job_owners_are_copied_to_pod_template() {
    let owners = vec![owner("first"), owner("second")];
    let job = JobBuilder::new("j".to_string(), batch_component()).owner_ref(Some(owners.clone())).to_job();
    assert_eq!(job.metadata.owner_references, Some(owners.clone()));
    assert_eq!(job.spec.template.metadata.owner_references, Some(owners));
}

#[test]
fn job_owner_ref_none_clears() {
    let job = JobBuilder::new("j".to_string(), batch_component())
        .owner_ref(Some(vec![owner("o")]))
        .owner_ref(None)
        .to_job();
    assert_eq!(job.metadata.owner_references, None);
    assert_eq!(job.spec.template.metadata.owner_references, None);
}

#[test]
fn job_parallelism_absent_when_never_set() {
    let job = JobBuilder::new("j".to_string(), batch_component())
        .labels(labels(&[("app", "x")]))
        .restart_policy("OnFailure".to_string())
        .to_job();
    assert_eq!(job.spec.parallelism, None);
}

#[test]
fn job_parallelism_is_forwarded_unchecked() {
    let zero = JobBuilder::new("j".to_string(), batch_component()).parallelism(0).to_job();
    assert_eq!(zero.spec.parallelism, Some(0));
    let negative = JobBuilder::new("j".to_string(), batch_component()).parallelism(-3).to_job();
    assert_eq!(negative.spec.parallelism, Some(-3));
    let largest = JobBuilder::new("j".to_string(), batch_component()).parallelism(i32::MAX).to_job();
    assert_eq!(largest.spec.parallelism, Some(i32::MAX));
}

#[test]
fn job_restart_policy_is_forwarded_unchecked() {
    let job = JobBuilder::new("j".to_string(), batch_component()).restart_policy("Sometimes".to_string()).to_job();
    assert_eq!(job.spec.template.spec.restart_policy, "Sometimes");
}

#[test]
fn job_finalize_twice_gives_equal_jobs() {
    let builder = JobBuilder::new("j".to_string(), web_component())
        .labels(labels(&[("app", "x")]))
        .owner_ref(Some(vec![owner("o")]))
        .parallelism(2);
    let copy = builder.clone();
    assert_eq!(builder.to_job(), copy.to_job());
}

#[test]
fn service_absent_without_port() {
    let none = ServiceBuilder::new("s".to_string(), batch_component()).to_service();
    assert_eq!(none, None);
    let configured = ServiceBuilder::new("s".to_string(), batch_component())
        .labels(labels(&[("app", "x")]))
        .owner_reference(Some(vec![owner("o")]))
        .to_service();
    assert_eq!(configured, None);
    let empty = ServiceBuilder::new("s".to_string(), Component { containers: vec![] }).to_service();
    assert_eq!(empty, None);
}

#[test]
fn service_has_one_port_and_selector_equal_to_labels() {
    let l = labels(&[("app", "web"), ("tier", "front")]);
    let svc = ServiceBuilder::new("s".to_string(), web_component()).labels(l.clone()).to_service().unwrap();
    assert_eq!(svc.spec.selector, l);
    assert_eq!(svc.metadata.labels, l);
    assert_eq!(
        svc.spec.ports,
        vec![ServicePort { name: "http".to_string(), port: 8080, target_port: 8080, protocol: PortProtocol::Tcp }]
    );
}

#[test]
fn service_uses_first_declared_port() {
    let component = Component {
        containers: vec![
            container("sidecar", vec![]),
            container("api", vec![port("grpc", 9000, PortProtocol::Udp), port("metrics", 9100, PortProtocol::Tcp)]),
            container("other", vec![port("x", 1, PortProtocol::Sctp)]),
        ],
    };
    assert_eq!(component.listening_port(), Some(port("grpc", 9000, PortProtocol::Udp)));
    let svc = ServiceBuilder::new("s".to_string(), component).to_service().unwrap();
    assert_eq!(svc.spec.ports.len(), 1);
    assert_eq!(svc.spec.ports[0].port, 9000);
    assert_eq!(svc.spec.ports[0].target_port, 9000);
    assert_eq!(svc.spec.ports[0].protocol, PortProtocol::Udp);
    assert_eq!(svc.spec.ports[0].name, "grpc");
}

#[test]
fn service_owners_and_name() {
    let owners = vec![owner("o")];
    let svc = ServiceBuilder::new("s-9".to_string(), web_component())
        .owner_reference(Some(owners.clone()))
        .to_service()
        .unwrap();
    assert_eq!(svc.metadata.name, "s-9");
    assert_eq!(svc.metadata.owner_references, Some(owners));
    assert!(svc.spec.selector.is_empty());
}

#[test]
fn service_finalize_twice_gives_equal_services() {
    let builder = ServiceBuilder::new("s".to_string(), web_component()).labels(labels(&[("app", "x")]));
    let copy = builder.clone();
    assert_eq!(builder.to_service(), copy.to_service());
}

#[test]
fn port_converts_to_service_port() {
    let p = port("dns", 53, PortProtocol::Udp);
    assert_eq!(
        p.to_service_port(),
        ServicePort { name: "dns".to_string(), port: 53, target_port: 53, protocol: PortProtocol::Udp }
    );
}

#[test]
fn pod_spec_carries_policy_and_containers() {
    let component = web_component();
    let pod = component.to_pod_spec_with_policy("OnFailure".to_string());
    assert_eq!(pod.restart_policy, "OnFailure");
    assert_eq!(pod.containers, component.containers);
}

#[test]
fn web_instance_gives_job_and_service() {
    let l = labels(&[("app", "web")]);
    let job = JobBuilder::new("web-1".to_string(), web_component()).labels(l.clone()).to_job();
    assert_eq!(job.metadata.name, "web-1");
    assert_eq!(job.metadata.labels, l);
    assert_eq!(job.spec.template.metadata.name, "web-1");
    assert_eq!(job.spec.template.metadata.labels, l);
    let svc = ServiceBuilder::new("web-1".to_string(), web_component()).labels(l.clone()).to_service().unwrap();
    assert_eq!(svc.metadata.name, "web-1");
    assert_eq!(svc.spec.selector, l);
    assert_eq!(svc.spec.ports.len(), 1);
    assert_eq!(svc.spec.ports[0].target_port, 8080);
    assert_eq!(svc.spec.ports[0].port, 8080);
    assert_eq!(svc.spec.ports[0].protocol, PortProtocol::Tcp);
}

#[test]
fn batch_instance_gives_job_only() {
    let job = JobBuilder::new("batch-1".to_string(), batch_component()).to_job();
    assert_eq!(job.metadata.name, "batch-1");
    assert_eq!(job.spec.backoff_limit, Some(4));
    let svc = ServiceBuilder::new("batch-1".to_string(), batch_component()).to_service();
    assert!(svc.is_none());
}

#[test]
fn protocol_names() {
    assert_eq!(PortProtocol::Tcp.name(), "TCP");
    assert_eq!(PortProtocol::Udp.name(), "UDP");
    assert_eq!(PortProtocol::Sctp.name(), "SCTP");
}
