//! The few Kubernetes objects that the schema produces, as plain values.

use vstd::prelude::*;
use crate::text::opt_text;
use crate::utils::map::TextMap;

verus! {

/// An environment variable of a container.
#[derive(Debug, PartialEq, Eq)]
pub struct EnvVar {
    pub name: String,
    pub value: Option<String>,
}

pub struct EnvVarView {
    pub name: Seq<char>,
    pub value: Option<Seq<char>>,
}

impl View for EnvVar {
    type V = EnvVarView;

    open spec fn view(&self) -> EnvVarView {
        EnvVarView { name: self.name@, value: opt_text(self.value) }
    }
}

/// A port that a container listens on.
#[derive(Debug, PartialEq, Eq)]
pub struct ContainerPort {
    pub container_port: i32,
    pub protocol: Option<String>,
}

pub struct ContainerPortView {
    pub container_port: i32,
    pub protocol: Option<Seq<char>>,
}

impl View for ContainerPort {
    type V = ContainerPortView;

    open spec fn view(&self) -> ContainerPortView {
        ContainerPortView { container_port: self.container_port, protocol: opt_text(self.protocol) }
    }
}

/// A port that a service exposes.
#[derive(Debug, PartialEq, Eq)]
pub struct ServicePort {
    pub port: i32,
    pub protocol: Option<String>,
}

pub struct ServicePortView {
    pub port: i32,
    pub protocol: Option<Seq<char>>,
}

impl View for ServicePort {
    type V = ServicePortView;

    open spec fn view(&self) -> ServicePortView {
        ServicePortView { port: self.port, protocol: opt_text(self.protocol) }
    }
}

/// A point in time: seconds since 1970-01-01 00:00:00 UTC, and the
/// nanoseconds into that second.
#[derive(Clone, Copy, Debug, PartialEq, Eq, Structural)]
pub struct Timestamp {
    pub seconds: i64,
    pub nanos: u32,
}

/// One observation of an object's state.
#[derive(Clone, Debug, PartialEq, Eq)]
pub struct Condition {
    /// The kind of condition.
    pub type_: String,
    /// `True`, `False` or `Unknown`.
    pub status: String,
    /// When the condition last changed.
    pub last_transition_time: Timestamp,
    /// A word in Pascal case that says why it changed.
    pub reason: String,
    pub observed_generation: Option<i64>,
    /// Details for a person; may be empty.
    pub message: String,
}

pub struct ConditionView {
    pub type_: Seq<char>,
    pub status: Seq<char>,
    pub last_transition_time: Timestamp,
    pub reason: Seq<char>,
    pub observed_generation: Option<i64>,
    pub message: Seq<char>,
}

impl View for Condition {
    type V = ConditionView;

    open spec fn view(&self) -> ConditionView {
        ConditionView {
            type_: self.type_@,
            status: self.status@,
            last_transition_time: self.last_transition_time,
            reason: self.reason@,
            observed_generation: self.observed_generation,
            message: self.message@,
        }
    }
}

/// Reads the clock with `Utc::now` of chrono, as k8s_openapi hands it on, and
/// returns the seconds and nanoseconds of that moment. Nothing is claimed of
/// the result: it is whatever the machine's clock says. The call panics on a
/// machine whose clock stands before 1970.
#[verifier::external_body]
pub(crate) fn now() -> (time: Timestamp) {
    let moment = k8s_openapi::chrono::Utc::now();
    Timestamp { seconds: moment.timestamp(), nanos: moment.timestamp_subsec_nanos() }
}

/// The views of a run of variables, in order.
pub open spec fn env_vars_view(vars: Seq<EnvVar>) -> Seq<EnvVarView> {
    Seq::new(vars.len(), |i: int| vars[i]@)
}

/// One variable for each pair, in order, with the pair's value.
pub open spec fn spec_to_env_var(pairs: Seq<(Seq<char>, String)>) -> Seq<EnvVarView> {
    Seq::new(pairs.len(), |i: int| EnvVarView { name: pairs[i].0, value: Some(pairs[i].1@) })
}

/// Turns a map of names and values into environment variables.
pub fn to_env_var(map: &TextMap<String>) -> (vars: Vec<EnvVar>)
    ensures
        env_vars_view(vars@) == spec_to_env_var(map.pairs()),
{
    let n = map.len();
    let mut vars: Vec<EnvVar> = Vec::new();
    let mut i: usize = 0;
    while i < n
        invariant
            i <= n,
            n == map.pairs().len(),
            vars@.len() == i,
            forall|k: int| 0 <= k < i ==> (#[trigger] vars@[k])@ == spec_to_env_var(map.pairs())[k],
        decreases n - i,
    {
        vars.push(EnvVar { name: map.key_at(i).clone(), value: Some(map.value_at(i).clone()) });
        i = i + 1;
    }
    assert(env_vars_view(vars@) =~= spec_to_env_var(map.pairs()));
    vars
}

} // verus!
