//! The Service that exposes an instance's pods, built only for components
//! that listen on a port.

use crate::component::{service_port_of, Component, ComponentView, Port, ServicePort};
use crate::meta::{owners_view, Labels, ObjectMeta, ObjectMetaView, OwnerReference};
use std::collections::BTreeMap;
use vstd::prelude::*;

verus! {

/// Which pods a Service routes to, and on which ports.
#[derive(Clone, Debug, PartialEq, Eq)]
pub struct ServiceSpec {
    pub selector: Labels,
    pub ports: Vec<ServicePort>,
}

/// A network-exposing resource.
#[derive(Clone, Debug, PartialEq, Eq)]
pub struct Service {
    pub metadata: ObjectMeta,
    pub spec: ServiceSpec,
}

/// The mathematical content of a [`ServiceSpec`].
pub ghost struct ServiceSpecView {
    pub selector: Map<String, String>,
    pub ports: Seq<ServicePort>,
}

/// The mathematical content of a [`Service`].
pub ghost struct ServiceView {
    pub metadata: ObjectMetaView,
    pub spec: ServiceSpecView,
}

impl View for ServiceSpec {
    type V = ServiceSpecView;

    open spec fn view(&self) -> ServiceSpecView {
        ServiceSpecView { selector: self.selector@, ports: self.ports@ }
    }
}

impl View for Service {
    type V = ServiceView;

    open spec fn view(&self) -> ServiceView {
        ServiceView { metadata: self.metadata@, spec: self.spec@ }
    }
}

/// The view of an optional Service.
pub open spec fn service_view(s: Option<Service>) -> Option<ServiceView> {
    match s {
        Some(v) => Some(v@),
        None => None,
    }
}

/// Collects the settings of a Service and turns them into one.
#[derive(Clone, Debug)]
pub struct ServiceBuilder {
    component: Component,
    labels: Labels,
    name: String,
    owner_ref: Option<Vec<OwnerReference>>,
}

/// The mathematical content of a [`ServiceBuilder`].
pub ghost struct ServiceBuilderView {
    pub component: ComponentView,
    pub labels: Map<String, String>,
    pub name: Seq<char>,
    pub owner_ref: Option<Seq<OwnerReference>>,
}

impl View for ServiceBuilder {
    type V = ServiceBuilderView;

    closed spec fn view(&self) -> ServiceBuilderView {
        ServiceBuilderView {
            component: self.component@,
            labels: self.labels@,
            name: self.name@,
            owner_ref: owners_view(self.owner_ref),
        }
    }
}

impl ServiceBuilderView {
    /// The Service that exposes port `p` of the pods these settings select.
    pub open spec fn service_on(self, p: Port) -> ServiceView {
        ServiceView {
            metadata: ObjectMetaView { name: self.name, labels: self.labels, owner_references: self.owner_ref },
            spec: ServiceSpecView { selector: self.labels, ports: seq![service_port_of(p)] },
        }
    }

    /// The Service these settings describe: none when the component listens
    /// on no port.
    pub open spec fn service(self) -> Option<ServiceView> {
        match self.component.listening_port() {
            Some(p) => Some(self.service_on(p)),
            None => None,
        }
    }
}

impl ServiceBuilder {
    /// A builder for the Service named `instance_name` in front of the pods
    /// of `component`, with no labels and no owners.
    pub fn new(instance_name: String, component: Component) -> (r: Self)
        ensures
            r@ == (ServiceBuilderView {
                component: component@,
                labels: Map::empty(),
                name: instance_name@,
                owner_ref: None,
            }),
    {
        ServiceBuilder { name: instance_name, component, labels: BTreeMap::new(), owner_ref: None }
    }

    /// Replaces the labels, which also become the Service's selector.
    pub fn labels(self, labels: Labels) -> (r: Self)
        ensures
            r@ == (ServiceBuilderView { labels: labels@, ..self@ }),
    {
        ServiceBuilder { labels, ..self }
    }

    /// Sets, or with `None` clears, the owners of the Service.
    pub fn owner_reference(self, owner_ref: Option<Vec<OwnerReference>>) -> (r: Self)
        ensures
            r@ == (ServiceBuilderView { owner_ref: owners_view(owner_ref), ..self@ }),
    {
        ServiceBuilder { owner_ref, ..self }
    }

    /// The Service these settings describe, or `None` when the component
    /// declares no port.
    pub fn to_service(self) -> (r: Option<Service>)
        ensures
            service_view(r) == self@.service(),
    {
        match self.component.listening_port() {
            None => None,
            Some(port) => {
                let mut ports: Vec<ServicePort> = Vec::new();
                ports.push(port.to_service_port());
                assert(ports@ =~= seq![service_port_of(port)]);
                let metadata = ObjectMeta {
                    name: self.name,
                    labels: self.labels.clone(),
                    owner_references: self.owner_ref,
                };
                Some(Service { metadata, spec: ServiceSpec { selector: self.labels, ports } })
            },
        }
    }
}

/// A component that listens on no port gives no Service, whatever the labels
/// and owners.
pub proof fn service_absent_without_port(b: ServiceBuilder)
    requires
        b@.component.listening_port() is None,
    ensures
        b@.service() is None,
{
}

/// A component that listens on port `p` gives a Service whose only port is
/// the one converted from `p` and whose selector is exactly the labels.
pub proof fn service_exposes_the_listening_port(b: ServiceBuilder, p: Port)
    requires
        b@.component.listening_port() == Some(p),
    ensures
        b@.service() is Some,
        b@.service()->0.spec.ports == seq![service_port_of(p)],
        b@.service()->0.spec.selector == b@.labels,
{
}

/// Finalizing is a function of the builder's settings alone: two builders
/// with the same settings, such as a builder and its copy, give equal results.
pub proof fn service_finalize_is_deterministic(a: ServiceBuilder, b: ServiceBuilder)
    requires
        a@ == b@,
    ensures
        a@.service() == b@.service(),
{
}

} // verus!
