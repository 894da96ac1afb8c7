//! The services of an actor and their ports.

use vstd::prelude::*;
use crate::text::{copy_opt, opt_text};
use crate::utils::kubernetes::{ContainerPort, ContainerPortView, ServicePort, ServicePortView};

verus! {

/// One port of a service.
#[derive(Debug, PartialEq, Eq)]
pub struct Port {
    /// The number of the port.
    pub port: i32,
    /// `TCP`, `UDP` or `SCTP`; `TCP` where none is named.
    pub protocol: Option<String>,
    /// Whether the port is reachable from outside.
    pub expose: Option<bool>,
}

pub struct PortView {
    pub port: i32,
    pub protocol: Option<Seq<char>>,
    pub expose: Option<bool>,
}

impl View for Port {
    type V = PortView;

    open spec fn view(&self) -> PortView {
        PortView { port: self.port, protocol: opt_text(self.protocol), expose: self.expose }
    }
}

impl PortView {
    /// The port as a container listens on it.
    pub open spec fn container_port(self) -> ContainerPortView {
        ContainerPortView { container_port: self.port, protocol: self.protocol }
    }

    /// The port as a service offers it.
    pub open spec fn service_port(self) -> ServicePortView {
        ServicePortView { port: self.port, protocol: self.protocol }
    }

    /// Whether the port is reachable from outside; it is not unless it says so.
    pub open spec fn exposed(self) -> bool {
        self.expose == Some(true)
    }
}

impl Clone for Port {
    fn clone(&self) -> (copy: Port)
        ensures
            copy@ == self@,
    {
        Port { port: self.port, protocol: copy_opt(&self.protocol), expose: self.expose }
    }
}

impl Port {
    /// The port as a container listens on it.
    pub fn container_port(&self) -> (port: ContainerPort)
        ensures
            port@ == self@.container_port(),
    {
        ContainerPort { container_port: self.port, protocol: copy_opt(&self.protocol) }
    }

    /// The port as a service offers it.
    pub fn service_port(&self) -> (port: ServicePort)
        ensures
            port@ == self@.service_port(),
    {
        ServicePort { port: self.port, protocol: copy_opt(&self.protocol) }
    }

    /// Whether the port is reachable from outside.
    pub fn exposed(&self) -> (exposed: bool)
        ensures
            exposed == self@.exposed(),
    {
        match self.expose {
            Some(b) => b,
            None => false,
        }
    }
}

/// The views of a run of ports, in order.
pub open spec fn ports_view(ports: Seq<Port>) -> Seq<PortView> {
    Seq::new(ports.len(), |i: int| ports[i]@)
}

/// One way in which an actor can be reached.
#[derive(Debug, PartialEq, Eq)]
pub struct Service {
    /// The kind of service, such as `ClusterIP`.
    pub kind: Option<String>,
    pub ports: Vec<Port>,
}

pub struct ServiceView {
    pub kind: Option<Seq<char>>,
    pub ports: Seq<PortView>,
}

impl View for Service {
    type V = ServiceView;

    open spec fn view(&self) -> ServiceView {
        ServiceView { kind: opt_text(self.kind), ports: ports_view(self.ports@) }
    }
}

/// The views of a run of services, in order.
pub open spec fn services_view(services: Seq<Service>) -> Seq<ServiceView> {
    Seq::new(services.len(), |i: int| services[i]@)
}

/// The view of an optional list of services.
pub open spec fn opt_services_view(services: Option<Vec<Service>>) -> Option<Seq<ServiceView>> {
    match services {
        Some(list) => Some(services_view(list@)),
        None => None,
    }
}

impl Clone for Service {
    fn clone(&self) -> (copy: Service)
        ensures
            copy@ == self@,
    {
        let mut ports: Vec<Port> = Vec::new();
        let mut i: usize = 0;
        while i < self.ports.len()
            invariant
                i <= self.ports.len(),
                ports@.len() == i,
                forall|k: int| 0 <= k < i ==> (#[trigger] ports@[k])@ == self.ports@[k]@,
            decreases self.ports.len() - i,
        {
            ports.push(self.ports[i].clone());
            i = i + 1;
        }
        assert(ports_view(ports@) =~= ports_view(self.ports@));
        Service { kind: copy_opt(&self.kind), ports }
    }
}

/// A copy of a list of services.
pub fn copy_services(services: &Vec<Service>) -> (copy: Vec<Service>)
    ensures
        services_view(copy@) == services_view(services@),
{
    let mut copy: Vec<Service> = Vec::new();
    let mut i: usize = 0;
    while i < services.len()
        invariant
            i <= services.len(),
            copy@.len() == i,
            forall|k: int| 0 <= k < i ==> (#[trigger] copy@[k])@ == services@[k]@,
        decreases services.len() - i,
    {
        copy.push(services[i].clone());
        i = i + 1;
    }
    assert(services_view(copy@) =~= services_view(services@));
    copy
}

} // verus!
