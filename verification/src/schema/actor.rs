//! The actor: one deployable unit, and the record of its state.

use vstd::prelude::*;
use vstd::string::StringExecFns;
use crate::schema::build_config::{opt_build_view, Build, BuildView};
use crate::schema::service::{
    copy_services, opt_services_view, ports_view, services_view, PortView, Service, ServiceView,
};
use crate::schema::source::{opt_sources_view, Source, SourceView};
use crate::schema::Manifest;
use crate::text::{copy_opt, opt_text, same_text, text_or_empty};
use crate::utils::case::{bool_text, pascal_case, spec_bool_text, to_pascal_case};
use crate::utils::kubernetes::{
    env_vars_view, now, spec_to_env_var, to_env_var, Condition, ConditionView, ContainerPort,
    ContainerPortView, EnvVar, EnvVarView, ServicePort, ServicePortView, Timestamp,
};
use crate::utils::map::{opt_texts_view, TextMap};

verus! {

/// What is wanted of an actor.
#[derive(Clone, Debug, PartialEq)]
pub struct ActorSpec {
    /// The name of the actor.
    pub name: String,
    /// The description of the actor.
    pub description: Option<String>,
    /// The source of the actor.
    pub source: Source,
    /// The image to launch the container from, written the way container
    /// registries address images:
    /// `[<registry>/][<project>/]<image>[:<tag>|@<digest>]`.
    pub image: String,
    /// Overrides the default command declared by the container image.
    pub command: Option<String>,
    /// Defines environment variables set in the container.
    pub environments: Option<TextMap<String>>,
    /// Depend on other partners from other repositories, or subdirectories on
    /// your local file system.
    pub partners: Option<TextMap<Source>>,
    /// Defines the behavior of a service.
    pub services: Option<Vec<Service>>,
    /// Sync mode: if enabled, the latest code is pulled from source control
    /// as it changes, and rebuilt and deployed.
    pub sync: Option<bool>,
    /// Describes how images are built.
    pub build: Option<Build>,
}

impl Default for ActorSpec {
    /// The actor of which nothing is said yet: every text is empty and
    /// nothing optional is set.
    fn default() -> (spec: ActorSpec)
        ensures
            spec.name@ == Seq::<char>::empty(),
            spec.description is None,
            spec.source@ == SourceView::of_repo(Seq::<char>::empty()),
            spec.image@ == Seq::<char>::empty(),
            spec.command is None,
            spec.environments is None,
            spec.partners is None,
            spec.services is None,
            spec.sync is None,
            spec.build is None,
    {
        ActorSpec {
            name: String::new(),
            description: None,
            source: Source::new(String::new()),
            image: String::new(),
            command: None,
            environments: None,
            partners: None,
            services: None,
            sync: None,
            build: None,
        }
    }
}

/// The variables for an optional map of names and values.
pub open spec fn spec_env_of(map: Option<TextMap<String>>) -> Option<Seq<EnvVarView>> {
    match map {
        Some(m) => Some(spec_to_env_var(m.pairs())),
        None => None,
    }
}

/// The view of an optional list of variables.
pub open spec fn opt_env_vars_view(vars: Option<Vec<EnvVar>>) -> Option<Seq<EnvVarView>> {
    match vars {
        Some(v) => Some(env_vars_view(v@)),
        None => None,
    }
}

/// The ports of one service as a container listens on them.
pub open spec fn spec_ports_of(ports: Seq<PortView>) -> Seq<ContainerPortView> {
    Seq::new(ports.len(), |i: int| ports[i].container_port())
}

/// The ports of all services as a container listens on them, service by service.
pub open spec fn spec_all_container_ports(services: Seq<ServiceView>) -> Seq<ContainerPortView>
    decreases services.len(),
{
    if services.len() == 0 {
        Seq::empty()
    } else {
        spec_all_container_ports(services.drop_last()) + spec_ports_of(services.last().ports)
    }
}

/// Those of the ports that are exposed, as a service offers them.
pub open spec fn spec_exposed_of(ports: Seq<PortView>) -> Seq<ServicePortView>
    decreases ports.len(),
{
    if ports.len() == 0 {
        Seq::empty()
    } else if ports.last().exposed() {
        spec_exposed_of(ports.drop_last()).push(ports.last().service_port())
    } else {
        spec_exposed_of(ports.drop_last())
    }
}

/// The exposed ports of all services, service by service.
pub open spec fn spec_all_service_ports(services: Seq<ServiceView>) -> Seq<ServicePortView>
    decreases services.len(),
{
    if services.len() == 0 {
        Seq::empty()
    } else {
        spec_all_service_ports(services.drop_last()) + spec_exposed_of(services.last().ports)
    }
}

/// The views of a run of container ports, in order.
pub open spec fn container_ports_view(ports: Seq<ContainerPort>) -> Seq<ContainerPortView> {
    Seq::new(ports.len(), |i: int| ports[i]@)
}

/// The views of a run of service ports, in order.
pub open spec fn service_ports_view(ports: Seq<ServicePort>) -> Seq<ServicePortView> {
    Seq::new(ports.len(), |i: int| ports[i]@)
}

/// Collects the ports of all services as a container listens on them.
pub fn all_container_ports(services: &Vec<Service>) -> (ports: Vec<ContainerPort>)
    ensures
        container_ports_view(ports@) == spec_all_container_ports(services_view(services@)),
{
    let ghost views = services_view(services@);
    let mut ports: Vec<ContainerPort> = Vec::new();
    let mut i: usize = 0;
    assert(container_ports_view(ports@) =~= spec_all_container_ports(views.take(0)));
    while i < services.len()
        invariant
            i <= services.len(),
            views == services_view(services@),
            container_ports_view(ports@) == spec_all_container_ports(views.take(i as int)),
        decreases services.len() - i,
    {
        let service = &services[i];
        let ghost before = container_ports_view(ports@);
        let ghost own = spec_ports_of(ports_view(service.ports@));
        let mut j: usize = 0;
        assert(container_ports_view(ports@) =~= before + own.take(0));
        while j < service.ports.len()
            invariant
                j <= service.ports.len(),
                own == spec_ports_of(ports_view(service.ports@)),
                container_ports_view(ports@) == before + own.take(j as int),
            decreases service.ports.len() - j,
        {
            let ghost earlier = container_ports_view(ports@);
            ports.push(service.ports[j].container_port());
            assert(container_ports_view(ports@) =~= earlier.push(own[j as int]));
            assert(before + own.take(j as int + 1) =~= (before + own.take(j as int)).push(own[j as int]));
            j = j + 1;
        }
        assert(own.take(service.ports.len() as int) =~= own);
        assert(views.take(i as int + 1).drop_last() =~= views.take(i as int));
        assert(views.take(i as int + 1).last() == service@);
        i = i + 1;
    }
    assert(views.take(services.len() as int) =~= views);
    ports
}

/// Collects the exposed ports of all services as a service offers them.
pub fn all_service_ports(services: &Vec<Service>) -> (ports: Vec<ServicePort>)
    ensures
        service_ports_view(ports@) == spec_all_service_ports(services_view(services@)),
{
    let ghost views = services_view(services@);
    let mut ports: Vec<ServicePort> = Vec::new();
    let mut i: usize = 0;
    assert(service_ports_view(ports@) =~= spec_all_service_ports(views.take(0)));
    while i < services.len()
        invariant
            i <= services.len(),
            views == services_view(services@),
            service_ports_view(ports@) == spec_all_service_ports(views.take(i as int)),
        decreases services.len() - i,
    {
        let service = &services[i];
        let ghost before = service_ports_view(ports@);
        let ghost own = ports_view(service.ports@);
        let mut j: usize = 0;
        assert(service_ports_view(ports@) =~= before + spec_exposed_of(own.take(0)));
        while j < service.ports.len()
            invariant
                j <= service.ports.len(),
                own == ports_view(service.ports@),
                service_ports_view(ports@) == before + spec_exposed_of(own.take(j as int)),
            decreases service.ports.len() - j,
        {
            let ghost earlier = service_ports_view(ports@);
            let ghost upto = own.take(j as int + 1);
            assert(upto.drop_last() =~= own.take(j as int));
            assert(upto.last() == service.ports@[j as int]@);
            if service.ports[j].exposed() {
                ports.push(service.ports[j].service_port());
                assert(service_ports_view(ports@) =~= earlier.push(upto.last().service_port()));
                assert(before + spec_exposed_of(upto) =~= (before + spec_exposed_of(own.take(j as int))).push(
                    upto.last().service_port(),
                ));
            }
            j = j + 1;
        }
        assert(own.take(service.ports.len() as int) =~= own);
        assert(views.take(i as int + 1).drop_last() =~= views.take(i as int));
        assert(views.take(i as int + 1).last() == service@);
        i = i + 1;
    }
    assert(views.take(services.len() as int) =~= views);
    ports
}

/// Helpers for building jobs.
impl ActorSpec {
    /// The name of the build job: the actor's name, `-`, and the revision.
    pub open spec fn spec_build_name(&self) -> Seq<char> {
        self.name@ + "-"@ + self.source@.rev_text()
    }

    /// The tag of the image that is built: the image, `:`, and the revision.
    pub open spec fn spec_docker_tag(&self) -> Seq<char> {
        self.image@ + ":"@ + self.source@.rev_text()
    }

    /// Returns the name of the build job.
    pub fn build_name(&self) -> (name: String)
        ensures
            name@ == self.spec_build_name(),
    {
        let mut name = String::from_str(self.name.as_str());
        name.append("-");
        name.append(self.source.rev().as_str());
        name
    }

    /// Returns the tag of the image that is built.
    pub fn docker_tag(&self) -> (tag: String)
        ensures
            tag@ == self.spec_docker_tag(),
    {
        let mut tag = String::from_str(self.image.as_str());
        tag.append(":");
        tag.append(self.source.rev().as_str());
        tag
    }
}

/// Helpers for Kubernetes resources.
impl ActorSpec {
    /// The container ports that are handed out: none without services, and
    /// none where the services have any port. Only services that all come
    /// without ports give a list, which is empty.
    pub open spec fn spec_container_ports(&self) -> Option<Seq<ContainerPortView>> {
        match self.services {
            Some(services) => {
                let ports = spec_all_container_ports(services_view(services@));
                if ports.len() == 0 {
                    Some(ports)
                } else {
                    None
                }
            },
            None => None,
        }
    }

    /// The service ports that are handed out: none without services, and
    /// none where the services expose any port. Only services that expose
    /// nothing give a list, which is empty.
    pub open spec fn spec_service_ports(&self) -> Option<Seq<ServicePortView>> {
        match self.services {
            Some(services) => {
                let ports = spec_all_service_ports(services_view(services@));
                if ports.len() == 0 {
                    Some(ports)
                } else {
                    None
                }
            },
            None => None,
        }
    }

    /// Returns the environment of the container as variables, one for each
    /// name in the order of the map.
    pub fn environments(&self) -> (vars: Option<Vec<EnvVar>>)
        ensures
            opt_env_vars_view(vars) == spec_env_of(self.environments),
    {
        match &self.environments {
            Some(map) => Some(to_env_var(map)),
            None => None,
        }
    }

    /// Returns the container ports of the services, which are kept only if
    /// there are none.
    pub fn container_ports(&self) -> (ports: Option<Vec<ContainerPort>>)
        ensures
            (match ports {
                Some(list) => Some(container_ports_view(list@)),
                None => None,
            }) == self.spec_container_ports(),
    {
        let services = match &self.services {
            Some(services) => services,
            None => {
                return None;
            },
        };
        let ports = all_container_ports(services);
        if ports.len() == 0 {
            Some(ports)
        } else {
            None
        }
    }

    /// Returns the exposed ports of the services, which are kept only if
    /// there are none.
    pub fn service_ports(&self) -> (ports: Option<Vec<ServicePort>>)
        ensures
            (match ports {
                Some(list) => Some(service_ports_view(list@)),
                None => None,
            }) == self.spec_service_ports(),
    {
        let services = match &self.services {
            Some(services) => services,
            None => {
                return None;
            },
        };
        let ports = all_service_ports(services);
        if ports.len() == 0 {
            Some(ports)
        } else {
            None
        }
    }
}

/// Helpers for building.
impl ActorSpec {
    /// Whether the build names a Dockerfile.
    pub open spec fn spec_has_dockerfile(&self) -> bool {
        opt_build_view(self.build) matches Some(build) && build.dockerfile is Some
    }

    /// The Dockerfile of the build, `Dockerfile` where it names none.
    pub open spec fn spec_dockerfile(&self) -> Seq<char> {
        match opt_build_view(self.build) {
            Some(BuildView { dockerfile: Some(path), .. }) => path,
            _ => "Dockerfile"@,
        }
    }

    /// The builder of the build, `amp-default-cluster-builder` where it names none.
    pub open spec fn spec_builder(&self) -> Seq<char> {
        match opt_build_view(self.build) {
            Some(BuildView { builder: Some(name), .. }) => name,
            _ => "amp-default-cluster-builder"@,
        }
    }

    /// The context of the build, empty where it names none.
    pub open spec fn spec_context(&self) -> Seq<char> {
        match opt_build_view(self.build) {
            Some(BuildView { context: Some(path), .. }) => path,
            _ => Seq::empty(),
        }
    }

    /// The environment of the build as variables.
    pub open spec fn spec_build_env(&self) -> Option<Seq<EnvVarView>> {
        match self.build {
            Some(build) => spec_env_of(build.environments),
            None => None,
        }
    }

    /// Returns whether the build names a Dockerfile.
    pub fn has_dockerfile(&self) -> (has: bool)
        ensures
            has == self.spec_has_dockerfile(),
    {
        match &self.build {
            Some(build) => build.dockerfile.is_some(),
            None => false,
        }
    }

    /// Returns the Dockerfile of the build.
    pub fn dockerfile(&self) -> (path: String)
        ensures
            path@ == self.spec_dockerfile(),
    {
        if let Some(build) = &self.build {
            if let Some(dockerfile) = &build.dockerfile {
                return dockerfile.clone();
            }
        }
        String::from_str("Dockerfile")
    }

    /// Returns the builder of the build.
    pub fn builder(&self) -> (name: String)
        ensures
            name@ == self.spec_builder(),
    {
        if let Some(build) = &self.build {
            if let Some(builder) = &build.builder {
                return builder.clone();
            }
        }
        String::from_str("amp-default-cluster-builder")
    }

    /// Returns the context of the build.
    pub fn context(&self) -> (path: String)
        ensures
            path@ == self.spec_context(),
    {
        if let Some(build) = &self.build {
            if let Some(context) = &build.context {
                return context.clone();
            }
        }
        String::new()
    }

    /// Returns the environment of the build as variables.
    pub fn build_env(&self) -> (vars: Option<Vec<EnvVar>>)
        ensures
            opt_env_vars_view(vars) == self.spec_build_env(),
    {
        if let Some(build) = &self.build {
            return match &build.environments {
                Some(map) => Some(to_env_var(map)),
                None => None,
            };
        }
        None
    }
}

impl ActorSpec {
    /// The actor that a manifest asks for. The source is the character's
    /// repository and nothing more; the image is empty where the character
    /// names none; sync is not set.
    pub fn from(manifest: &Manifest) -> (spec: ActorSpec)
        ensures
            spec.name@ == manifest.character.name@,
            opt_text(spec.description) == opt_text(manifest.character.description),
            spec.source@ == SourceView::of_repo(manifest.character.repository@),
            spec.image@ == (match manifest.character.image {
                Some(image) => image@,
                None => Seq::<char>::empty(),
            }),
            opt_text(spec.command) == opt_text(manifest.character.command),
            opt_texts_view(spec.environments) == opt_texts_view(manifest.environments),
            opt_sources_view(spec.partners) == opt_sources_view(manifest.partners),
            opt_services_view(spec.services) == opt_services_view(manifest.services),
            spec.sync is None,
            opt_build_view(spec.build) == opt_build_view(manifest.build),
    {
        ActorSpec {
            name: manifest.character.name.clone(),
            description: copy_opt(&manifest.character.description),
            source: Source::new(manifest.character.repository.clone()),
            image: text_or_empty(&manifest.character.image),
            command: copy_opt(&manifest.character.command),
            environments: match &manifest.environments {
                Some(map) => Some(map.clone()),
                None => None,
            },
            partners: match &manifest.partners {
                Some(map) => Some(map.clone()),
                None => None,
            },
            services: match &manifest.services {
                Some(list) => Some(copy_services(list)),
                None => None,
            },
            sync: None,
            build: match &manifest.build {
                Some(build) => Some(build.clone()),
                None => None,
            },
        }
    }
}

/// The states that an actor passes through.
#[derive(Clone, Copy, Debug, PartialEq, Eq, Structural)]
pub enum ActorState {
    Pending,
    Building,
    Running,
    Failed,
}

/// The views of a run of conditions, in order.
pub open spec fn conditions_view(conditions: Seq<Condition>) -> Seq<ConditionView> {
    Seq::new(conditions.len(), |i: int| conditions[i]@)
}

impl ActorState {
    /// The name of the state, which is the type of its conditions.
    pub open spec fn spec_name(self) -> Seq<char> {
        match self {
            ActorState::Pending => "Pending"@,
            ActorState::Building => "Building"@,
            ActorState::Running => "Running"@,
            ActorState::Failed => "Failed"@,
        }
    }

    /// The condition that records the state at `time`, with the status and the
    /// reason already worded.
    pub open spec fn spec_condition(
        self,
        status: Seq<char>,
        reason: Seq<char>,
        message: Option<Seq<char>>,
        time: Timestamp,
    ) -> ConditionView {
        ConditionView {
            type_: self.spec_name(),
            status,
            last_transition_time: time,
            reason,
            observed_generation: None,
            message: match message {
                Some(text) => text,
                None => Seq::empty(),
            },
        }
    }

    /// The condition that records the state at `time`: the status is the truth
    /// value in Pascal case, and so is the reason.
    pub open spec fn spec_create(self, status: bool, reason: Seq<char>, message: Option<Seq<char>>, time: Timestamp) -> ConditionView {
        self.spec_condition(pascal_case(spec_bool_text(status)), pascal_case(reason), message, time)
    }

    /// Returns the name of the state.
    pub fn to_text(&self) -> (name: String)
        ensures
            name@ == self.spec_name(),
    {
        match self {
            ActorState::Pending => String::from_str("Pending"),
            ActorState::Building => String::from_str("Building"),
            ActorState::Running => String::from_str("Running"),
            ActorState::Failed => String::from_str("Failed"),
        }
    }

    /// Builds the condition that records the state at `time`, from a status
    /// and a reason that are already worded.
    pub fn condition(self, status: String, reason: String, message: Option<String>, time: Timestamp) -> (condition: Condition)
        ensures
            condition@ == self.spec_condition(status@, reason@, opt_text(message), time),
    {
        Condition {
            type_: self.to_text(),
            status,
            last_transition_time: time,
            reason,
            observed_generation: None,
            message: match message {
                Some(message) => message,
                None => String::new(),
            },
        }
    }

    /// The condition for an actor that was created and waits to be built.
    /// Its time is the moment of the call.
    pub fn pending() -> (condition: Condition)
        ensures
            condition@ == ActorState::Pending.spec_create(true, "Created"@, None, condition.last_transition_time),
    {
        ActorState::create(ActorState::Pending, true, "Created", None)
    }

    /// The condition for an actor that is being built. Its time is the moment
    /// of the call.
    pub fn building() -> (condition: Condition)
        ensures
            condition@ == ActorState::Building.spec_create(true, "Build"@, None, condition.last_transition_time),
    {
        ActorState::create(ActorState::Building, true, "Build", None)
    }

    /// The condition that says whether an actor runs. Its time is the moment
    /// of the call.
    pub fn running(status: bool, reason: &str, message: Option<String>) -> (condition: Condition)
        ensures
            condition@ == ActorState::Running.spec_create(
                status,
                reason@,
                opt_text(message),
                condition.last_transition_time,
            ),
    {
        ActorState::create(ActorState::Running, status, reason, message)
    }

    /// The condition that says whether an actor failed. Its time is the
    /// moment of the call.
    pub fn failed(status: bool, reason: &str, message: Option<String>) -> (condition: Condition)
        ensures
            condition@ == ActorState::Failed.spec_create(
                status,
                reason@,
                opt_text(message),
                condition.last_transition_time,
            ),
    {
        ActorState::create(ActorState::Failed, status, reason, message)
    }

    fn create(state: ActorState, status: bool, reason: &str, message: Option<String>) -> (condition: Condition)
        ensures
            condition@ == state.spec_create(status, reason@, opt_text(message), condition.last_transition_time),
    {
        let status = to_pascal_case(bool_text(status));
        let reason = to_pascal_case(reason);
        state.condition(status, reason, message, now())
    }
}

/// The record of what was observed of an actor.
#[derive(Clone, Debug, PartialEq)]
pub struct ActorStatus {
    conditions: Vec<Condition>,
}

impl ActorStatus {
    /// The conditions on record, oldest first.
    pub closed spec fn conditions(&self) -> Seq<ConditionView> {
        conditions_view(self.conditions@)
    }

    /// A condition of the given type and status is on record.
    pub open spec fn spec_has_condition(&self, type_: Seq<char>, status: Seq<char>) -> bool {
        exists|i: int|
            0 <= i < self.conditions().len() && (#[trigger] self.conditions()[i]).type_ == type_
                && self.conditions()[i].status == status
    }

    /// A condition for `state` is on record whose status is the truth value in Pascal case.
    pub open spec fn spec_state(&self, state: ActorState, status: bool) -> bool {
        self.spec_has_condition(state.spec_name(), pascal_case(spec_bool_text(status)))
    }

    /// The status with the given conditions on record.
    pub fn new(conditions: Vec<Condition>) -> (status: ActorStatus)
        ensures
            status.conditions() == conditions_view(conditions@),
    {
        ActorStatus { conditions }
    }

    /// Whether a condition of the given type and status is on record.
    pub fn has_condition(&self, type_: &str, status: &str) -> (found: bool)
        ensures
            found == self.spec_has_condition(type_@, status@),
    {
        let mut i: usize = 0;
        while i < self.conditions.len()
            invariant
                i <= self.conditions.len(),
                forall|k: int|
                    0 <= k < i ==> !((#[trigger] self.conditions()[k]).type_ == type_@ && self.conditions()[k].status
                        == status@),
            decreases self.conditions.len() - i,
        {
            let condition = &self.conditions[i];
            assert(self.conditions()[i as int] == condition@);
            if same_text(condition.type_.as_str(), type_) && same_text(condition.status.as_str(), status) {
                return true;
            }
            i = i + 1;
        }
        false
    }

    /// Whether the actor is on record as pending.
    pub fn pending(&self) -> (is: bool)
        ensures
            is == self.spec_state(ActorState::Pending, true),
    {
        self.state(ActorState::Pending, true)
    }

    /// Whether the actor is on record as being built.
    pub fn building(&self) -> (is: bool)
        ensures
            is == self.spec_state(ActorState::Building, true),
    {
        self.state(ActorState::Building, true)
    }

    /// Whether the actor is on record as running.
    pub fn running(&self) -> (is: bool)
        ensures
            is == self.spec_state(ActorState::Running, true),
    {
        self.state(ActorState::Running, true)
    }

    /// Whether the actor is on record as failed.
    pub fn failed(&self) -> (is: bool)
        ensures
            is == self.spec_state(ActorState::Failed, true),
    {
        self.state(ActorState::Failed, true)
    }

    fn state(&self, state: ActorState, status: bool) -> (is: bool)
        ensures
            is == self.spec_state(state, status),
    {
        let status = to_pascal_case(bool_text(status));
        self.has_condition(state.to_text().as_str(), status.as_str())
    }
}

} // verus!
