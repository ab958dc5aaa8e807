//! The component definition that the builders read: its containers, the port
//! it listens on, and the pod specification it renders.

use vstd::prelude::*;

verus! {

/// Transport protocol of a declared port.
#[derive(Clone, Copy, Debug, PartialEq, Eq)]
pub enum PortProtocol {
    Tcp,
    Udp,
    Sctp,
}

/// The name the control plane uses for a protocol.
pub open spec fn protocol_name(p: PortProtocol) -> Seq<char> {
    match p {
        PortProtocol::Tcp => seq!['T', 'C', 'P'],
        PortProtocol::Udp => seq!['U', 'D', 'P'],
        PortProtocol::Sctp => seq!['S', 'C', 'T', 'P'],
    }
}

impl PortProtocol {
    /// The name the control plane uses for this protocol.
    pub fn name(&self) -> (r: String)
        ensures
            r@ == protocol_name(*self),
    {
        match self {
            PortProtocol::Tcp => {
                let r = String::from_str("TCP");
                proof {
                    reveal_strlit("TCP");
                }
                assert(r@ =~= protocol_name(*self));
                r
            },
            PortProtocol::Udp => {
                let r = String::from_str("UDP");
                proof {
                    reveal_strlit("UDP");
                }
                assert(r@ =~= protocol_name(*self));
                r
            },
            PortProtocol::Sctp => {
                let r = String::from_str("SCTP");
                proof {
                    reveal_strlit("SCTP");
                }
                assert(r@ =~= protocol_name(*self));
                r
            },
        }
    }
}

/// A port that a container declares.
#[derive(Clone, Debug, PartialEq, Eq)]
pub struct Port {
    pub name: String,
    pub container_port: i32,
    pub protocol: PortProtocol,
}

/// A port that a Service exposes, forwarding to `target_port` on the pods.
#[derive(Clone, Debug, PartialEq, Eq)]
pub struct ServicePort {
    pub name: String,
    pub port: i32,
    pub target_port: i32,
    pub protocol: PortProtocol,
}

/// The Service port that exposes a declared container port: same name and
/// protocol, the same number on both sides.
pub open spec fn service_port_of(p: Port) -> ServicePort {
    ServicePort { name: p.name, port: p.container_port, target_port: p.container_port, protocol: p.protocol }
}

impl Port {
    /// A field-by-field copy.
    pub fn duplicate(&self) -> (r: Port)
        ensures
            r == *self,
    {
        Port { name: self.name.clone(), container_port: self.container_port, protocol: self.protocol }
    }

    /// The Service port that exposes this container port.
    pub fn to_service_port(&self) -> (r: ServicePort)
        ensures
            r == service_port_of(*self),
    {
        ServicePort {
            name: self.name.clone(),
            port: self.container_port,
            target_port: self.container_port,
            protocol: self.protocol,
        }
    }
}

/// One container of a component.
#[derive(Clone, Debug, PartialEq, Eq)]
pub struct Container {
    pub name: String,
    pub image: String,
    pub ports: Vec<Port>,
}

/// The mathematical content of a [`Container`].
pub ghost struct ContainerView {
    pub name: Seq<char>,
    pub image: Seq<char>,
    pub ports: Seq<Port>,
}

impl View for Container {
    type V = ContainerView;

    open spec fn view(&self) -> ContainerView {
        ContainerView { name: self.name@, image: self.image@, ports: self.ports@ }
    }
}

/// The views of a list of containers.
pub open spec fn containers_view(cs: Seq<Container>) -> Seq<ContainerView> {
    cs.map_values(|c: Container| c@)
}

impl Container {
    /// A deep copy.
    pub fn duplicate(&self) -> (r: Container)
        ensures
            r@ == self@,
    {
        let mut ports: Vec<Port> = Vec::new();
        let mut i: usize = 0;
        while i < self.ports.len()
            invariant
                i <= self.ports@.len(),
                ports@ == self.ports@.subrange(0, i as int),
            decreases self.ports@.len() - i,
        {
            ports.push(self.ports[i].duplicate());
            i = i + 1;
        }
        assert(ports@ == self.ports@);
        Container { name: self.name.clone(), image: self.image.clone(), ports }
    }
}

/// Copies a list of containers, keeping its order.
pub fn copy_containers(cs: &Vec<Container>) -> (r: Vec<Container>)
    ensures
        containers_view(r@) == containers_view(cs@),
{
    let mut out: Vec<Container> = Vec::new();
    let mut i: usize = 0;
    while i < cs.len()
        invariant
            i <= cs@.len(),
            out@.len() == i,
            forall|j: int| 0 <= j < i ==> (#[trigger] out@[j])@ == cs@[j]@,
        decreases cs@.len() - i,
    {
        out.push(cs[i].duplicate());
        i = i + 1;
    }
    assert(containers_view(out@) =~= containers_view(cs@));
    out
}

/// The first port declared by the first container that declares any.
pub open spec fn first_port(cs: Seq<ContainerView>) -> Option<Port>
    decreases cs.len(),
{
    if cs.len() == 0 {
        None
    } else if cs[0].ports.len() > 0 {
        Some(cs[0].ports[0])
    } else {
        first_port(cs.drop_first())
    }
}

/// What a pod runs: the component's containers under a restart policy.
#[derive(Clone, Debug, PartialEq, Eq)]
pub struct PodSpec {
    pub containers: Vec<Container>,
    pub restart_policy: String,
}

/// The mathematical content of a [`PodSpec`].
pub ghost struct PodSpecView {
    pub containers: Seq<ContainerView>,
    pub restart_policy: Seq<char>,
}

impl View for PodSpec {
    type V = PodSpecView;

    open spec fn view(&self) -> PodSpecView {
        PodSpecView { containers: containers_view(self.containers@), restart_policy: self.restart_policy@ }
    }
}

/// A component definition: the containers that make up one workload.
#[derive(Clone, Debug, PartialEq, Eq)]
pub struct Component {
    pub containers: Vec<Container>,
}

/// The mathematical content of a [`Component`].
pub ghost struct ComponentView {
    pub containers: Seq<ContainerView>,
}

impl View for Component {
    type V = ComponentView;

    open spec fn view(&self) -> ComponentView {
        ComponentView { containers: containers_view(self.containers@) }
    }
}

impl ComponentView {
    /// The port the component listens on, if it declares one.
    pub open spec fn listening_port(self) -> Option<Port> {
        first_port(self.containers)
    }

    /// The pod specification the component renders under a restart policy.
    pub open spec fn pod_spec(self, policy: Seq<char>) -> PodSpecView {
        PodSpecView { containers: self.containers, restart_policy: policy }
    }
}

impl Component {
    /// The first port of the first container that declares a port, if any.
    pub fn listening_port(&self) -> (r: Option<Port>)
        ensures
            r == self@.listening_port(),
    {
        let ghost cs = containers_view(self.containers@);
        assert(cs.subrange(0, cs.len() as int) =~= cs);
        let mut i: usize = 0;
        while i < self.containers.len()
            invariant
                i <= self.containers@.len(),
                cs == containers_view(self.containers@),
                first_port(cs) == first_port(cs.subrange(i as int, cs.len() as int)),
            decreases self.containers@.len() - i,
        {
            let c = &self.containers[i];
            let ghost rest = cs.subrange(i as int, cs.len() as int);
            assert(rest[0] == c@);
            if c.ports.len() > 0 {
                return Some(c.ports[0].duplicate());
            }
            assert(rest.drop_first() =~= cs.subrange(i + 1, cs.len() as int));
            i = i + 1;
        }
        None
    }

    /// The pod specification that runs this component's containers under the
    /// given restart policy.
    pub fn to_pod_spec_with_policy(&self, policy: String) -> (r: PodSpec)
        ensures
            r@ == self@.pod_spec(policy@),
    {
        PodSpec { containers: copy_containers(&self.containers), restart_policy: policy }
    }
}

} // verus!
