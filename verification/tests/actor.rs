use amp_common::schema::actor::{all_container_ports, all_service_ports, ActorSpec, ActorState, ActorStatus};
use amp_common::schema::build_config::Build;
use amp_common::schema::character::Character;
use amp_common::schema::service::{Port, Service};
use amp_common::schema::source::Source;
use amp_common::schema::Manifest;
use amp_common::utils::case::bool_text;
use amp_common::utils::kubernetes::{to_env_var, Condition, ContainerPort, EnvVar, ServicePort, Timestamp};
use amp_common::utils::map::TextMap;

fn source(rev: Option<&str>) -> Source {
    Source { repo: String::from("https://git.example/o/r.git"), branch: None, tag: None, rev: rev.map(String::from), path: None }
}

fn actor(rev: Option<&str>, services: Option<Vec<Service>>, build: Option<Build>) -> ActorSpec {
    ActorSpec {
        name: String::from("api"),
        description: None,
        source: source(rev),
        image: String::from("registry.io/o/api"),
        command: None,
        environments: None,
        partners: None,
        services,
        sync: None,
        build,
    }
}

fn port(number: i32, expose: Option<bool>) -> Port {
    Port { port: number, protocol: Some(String::from("TCP")), expose }
}

fn build(dockerfile: Option<&str>, builder: Option<&str>, context: Option<&str>) -> Build {
    Build {
        dockerfile: dockerfile.map(String::from),
        builder: builder.map(String::from),
        context: context.map(String::from),
        environments: None,
    }
}

fn variables(pairs: Vec<(&str, &str)>) -> TextMap<String> {
    let mut map = TextMap::new();
    for (name, value) in pairs {
        map.insert(name.to_string(), value.to_string());
    }
    map
}

fn condition(type_: &str, status: &str) -> Condition {
    Condition {
        type_: type_.to_string(),
        status: status.to_string(),
        last_transition_time: Timestamp { seconds: 1_700_000_000, nanos: 0 },
        reason: String::from("Because"),
        observed_generation: None,
        message: String::new(),
    }
}

#[test]
fn build_name_and_docker_tag_end_in_the_revision() {
    let spec = actor(Some("f00d"), None, None);
    assert_eq!(spec.build_name(), "api-f00d");
    assert_eq!(spec.docker_tag(), "registry.io/o/api:f00d");
    let unpinned = actor(None, None, None);
    assert_eq!(unpinned.build_name(), "api-");
    assert_eq!(unpinned.docker_tag(), "registry.io/o/api:");
    assert_eq!(source(Some("f00d")).rev(), "f00d");
    assert_eq!(Source::new(String::from("r")), Source { repo: String::from("r"), branch: None, tag: None, rev: None, path: None });
}

#[test]
fn build_settings_fall_back_to_their_defaults() {
    let bare = actor(None, None, None);
    assert!(!bare.has_dockerfile());
    assert_eq!(bare.dockerfile(), "Dockerfile");
    assert_eq!(bare.builder(), "amp-default-cluster-builder");
    assert_eq!(bare.context(), "");
    assert_eq!(bare.build_env(), None);
    let empty = actor(None, None, Some(build(None, None, None)));
    assert!(!empty.has_dockerfile());
    assert_eq!(empty.dockerfile(), "Dockerfile");
    assert_eq!(empty.builder(), "amp-default-cluster-builder");
    assert_eq!(empty.context(), "");
    assert_eq!(empty.build_env(), None);
}

#[test]
fn build_settings_are_taken_where_set() {
    let mut settings = build(Some("docker/Dockerfile.prod"), Some("my-builder"), Some("services/api"));
    settings.environments = Some(variables(vec![("RUST_LOG", "info"), ("CI", "true")]));
    let spec = actor(None, None, Some(settings));
    assert!(spec.has_dockerfile());
    assert_eq!(spec.dockerfile(), "docker/Dockerfile.prod");
    assert_eq!(spec.builder(), "my-builder");
    assert_eq!(spec.context(), "services/api");
    assert_eq!(
        spec.build_env(),
        Some(vec![
            EnvVar { name: String::from("RUST_LOG"), value: Some(String::from("info")) },
            EnvVar { name: String::from("CI"), value: Some(String::from("true")) },
        ])
    );
}

#[test]
fn environments_become_variables_in_order() {
    let mut spec = actor(None, None, None);
    assert_eq!(spec.environments(), None);
    spec.environments = Some(variables(vec![("B", "2"), ("A", "1")]));
    assert_eq!(
        spec.environments(),
        Some(vec![
            EnvVar { name: String::from("B"), value: Some(String::from("2")) },
            EnvVar { name: String::from("A"), value: Some(String::from("1")) },
        ])
    );
    assert_eq!(to_env_var(&TextMap::new()), vec![]);
}

#[test]
fn ports_are_handed_out_only_when_there_are_none() {
    assert_eq!(actor(None, None, None).container_ports(), None);
    assert_eq!(actor(None, None, None).service_ports(), None);
    let without_ports = vec![Service { kind: None, ports: vec![] }, Service { kind: None, ports: vec![] }];
    let spec = actor(None, Some(without_ports), None);
    assert_eq!(spec.container_ports(), Some(vec![]));
    assert_eq!(spec.service_ports(), Some(vec![]));
    assert_eq!(actor(None, Some(vec![]), None).container_ports(), Some(vec![]));
    let hidden = vec![Service { kind: None, ports: vec![port(8080, None), port(9090, Some(false))] }];
    let spec = actor(None, Some(hidden), None);
    assert_eq!(spec.container_ports(), None);
    assert_eq!(spec.service_ports(), Some(vec![]));
    let exposed = vec![Service { kind: None, ports: vec![port(8080, Some(true))] }];
    let spec = actor(None, Some(exposed), None);
    assert_eq!(spec.container_ports(), None);
    assert_eq!(spec.service_ports(), None);
}

#[test]
fn ports_of_all_services_are_collected_in_order() {
    let services = vec![
        Service { kind: None, ports: vec![port(80, Some(true)), port(81, None)] },
        Service { kind: Some(String::from("NodePort")), ports: vec![] },
        Service { kind: None, ports: vec![port(82, Some(false)), port(83, Some(true))] },
    ];
    let tcp = Some(String::from("TCP"));
    assert_eq!(
        all_container_ports(&services),
        vec![
            ContainerPort { container_port: 80, protocol: tcp.clone() },
            ContainerPort { container_port: 81, protocol: tcp.clone() },
            ContainerPort { container_port: 82, protocol: tcp.clone() },
            ContainerPort { container_port: 83, protocol: tcp.clone() },
        ]
    );
    assert_eq!(
        all_service_ports(&services),
        vec![ServicePort { port: 80, protocol: tcp.clone() }, ServicePort { port: 83, protocol: tcp.clone() }]
    );
    assert!(port(1, Some(true)).exposed());
    assert!(!port(1, Some(false)).exposed());
    assert!(!port(1, None).exposed());
}

#[test]
fn actor_is_made_from_a_manifest() {
    let mut partners = TextMap::new();
    partners.insert(String::from("db"), source(Some("abc")));
    let manifest = Manifest {
        character: Character {
            name: String::from("api"),
            description: Some(String::from("the api")),
            repository: String::from("https://git.example/o/api.git"),
            command: Some(String::from("run")),
            ..Character::default()
        },
        environments: Some(variables(vec![("A", "1")])),
        partners: Some(partners),
        services: Some(vec![Service { kind: None, ports: vec![port(80, Some(true))] }]),
        build: Some(build(Some("Dockerfile.dev"), None, None)),
    };
    let spec = ActorSpec::from(&manifest);
    assert_eq!(spec.name, "api");
    assert_eq!(spec.description, Some(String::from("the api")));
    assert_eq!(spec.source, Source::new(String::from("https://git.example/o/api.git")));
    assert_eq!(spec.image, "");
    assert_eq!(spec.command, Some(String::from("run")));
    let environments = spec.environments.as_ref().unwrap();
    assert_eq!((environments.len(), environments.key_at(0).as_str(), environments.value_at(0).as_str()), (1, "A", "1"));
    let partners = spec.partners.as_ref().unwrap();
    assert_eq!(partners.len(), 1);
    assert_eq!(partners.key_at(0), "db");
    assert_eq!(partners.value_at(0), &source(Some("abc")));
    assert_eq!(spec.services, Some(vec![Service { kind: None, ports: vec![port(80, Some(true))] }]));
    assert_eq!(spec.sync, None);
    assert_eq!(spec.dockerfile(), "Dockerfile.dev");
    let with_image = Manifest {
        character: Character { image: Some(String::from("nginx:1")), ..Character::default() },
        environments: None,
        partners: None,
        services: None,
        build: None,
    };
    let spec = ActorSpec::from(&with_image);
    assert_eq!(spec.image, "nginx:1");
    assert!(spec.environments.is_none() && spec.partners.is_none() && spec.services.is_none() && spec.build.is_none());
}

#[test]
fn state_names_are_their_variants() {
    assert_eq!(ActorState::Pending.to_text(), "Pending");
    assert_eq!(ActorState::Building.to_text(), "Building");
    assert_eq!(ActorState::Running.to_text(), "Running");
    assert_eq!(ActorState::Failed.to_text(), "Failed");
    assert_eq!(bool_text(true), "true");
    assert_eq!(bool_text(false), "false");
}

#[test]
fn conditions_are_worded_in_pascal_case() {
    let pending = ActorState::pending();
    assert_eq!(pending.type_, "Pending");
    assert_eq!(pending.status, "True");
    assert_eq!(pending.reason, "Created");
    assert_eq!(pending.message, "");
    assert_eq!(pending.observed_generation, None);
    assert!(pending.last_transition_time.seconds > 1_600_000_000);
    let building = ActorState::building();
    assert_eq!((building.type_.as_str(), building.status.as_str(), building.reason.as_str()), ("Building", "True", "Build"));
    let running = ActorState::running(false, "image pull_failed", Some(String::from("no such image")));
    assert_eq!(running.type_, "Running");
    assert_eq!(running.status, "False");
    assert_eq!(running.reason, "ImagePullFailed");
    assert_eq!(running.message, "no such image");
    let failed = ActorState::failed(true, "crashLoop", None);
    assert_eq!((failed.type_.as_str(), failed.status.as_str(), failed.reason.as_str()), ("Failed", "True", "CrashLoop"));
    assert_eq!(failed.message, "");
}

#[test]
fn condition_is_built_from_worded_parts() {
    let time = Timestamp { seconds: 5, nanos: 7 };
    let built = ActorState::Running.condition(String::from("Unknown"), String::from("Probe"), None, time);
    assert_eq!(
        built,
        Condition {
            type_: String::from("Running"),
            status: String::from("Unknown"),
            last_transition_time: time,
            reason: String::from("Probe"),
            observed_generation: None,
            message: String::new(),
        }
    );
}

#[test]
fn status_reports_the_states_on_record() {
    let status = ActorStatus::new(vec![condition("Pending", "True"), condition("Running", "False")]);
    assert!(status.pending());
    assert!(!status.building());
    assert!(!status.running());
    assert!(!status.failed());
    assert!(status.has_condition("Running", "False"));
    assert!(!status.has_condition("Running", "True"));
    let later = ActorStatus::new(vec![
        condition("Pending", "False"),
        condition("Building", "True"),
        condition("Running", "True"),
        condition("Failed", "True"),
    ]);
    assert!(!later.pending());
    assert!(later.building() && later.running() && later.failed());
    assert!(!ActorStatus::new(vec![]).pending());
    assert!(!ActorStatus::new(vec![condition("Pending", "true")]).pending());
}

#[test]
fn recorded_conditions_are_found_again() {
    let status = ActorStatus::new(vec![ActorState::pending(), ActorState::running(true, "ready", None)]);
    assert!(status.pending());
    assert!(status.running());
    assert!(!status.failed());
}

#[test]
fn character_is_rendered_as_name_and_repository() {
    let character = Character {
        name: String::from("api"),
        repository: String::from("https://git.example/o/api.git"),
        ..Character::default()
    };
    assert_eq!(character.to_text(), "api https://git.example/o/api.git");
    assert_eq!(Character::default().to_text(), " ");
}

#[test]
fn default_actor_says_nothing() {
    let spec = ActorSpec::default();
    assert_eq!(spec.name, "");
    assert_eq!(spec.image, "");
    assert_eq!(spec.source, Source::new(String::new()));
    assert!(spec.description.is_none() && spec.command.is_none() && spec.sync.is_none());
    assert!(spec.environments.is_none() && spec.partners.is_none() && spec.services.is_none() && spec.build.is_none());
    assert_eq!(spec, actor_named(""));
    assert_ne!(spec, actor_named("api"));
    assert_eq!(spec.clone(), spec);
    assert_eq!(spec.build_name(), "-");
}

fn actor_named(name: &str) -> ActorSpec {
    ActorSpec {
        name: name.to_string(),
        description: None,
        source: Source::new(String::new()),
        image: String::new(),
        command: None,
        environments: None,
        partners: None,
        services: None,
        sync: None,
        build: None,
    }
}

#[test]
fn statuses_and_maps_compare_by_what_they_hold() {
    let one = ActorStatus::new(vec![condition("Pending", "True")]);
    assert_eq!(one.clone(), one);
    assert_ne!(one, ActorStatus::new(vec![]));
    assert_eq!(variables(vec![("A", "1")]), variables(vec![("A", "1")]));
    assert_ne!(variables(vec![("A", "1")]), variables(vec![("A", "2")]));
    assert_eq!(variables(vec![("A", "1")]).clone(), variables(vec![("A", "1")]));
    assert_eq!(build(Some("d"), None, None), build(Some("d"), None, None));
}
