use symphony::ankaios::{
    build_workload, AnkaiosProvider, InMemoryOrchestrator, WorkloadFields,
};
use symphony::json::JsonValue;
use symphony::models::{
    ComponentAction, ComponentSpec, ComponentStep, DeploymentSpec, DeploymentStep,
};
use symphony::provider::ITargetProvider;
use symphony::State;

fn comp(name: &str) -> ComponentSpec {
    ComponentSpec {
        name: name.to_string(),
        component_type: None,
        metadata: None,
        properties: None,
        parameters: None,
        routes: None,
        constraints: None,
        dependencies: None,
        skills: None,
        sidecars: None,
    }
}

fn fields(agent: &str, runtime: &str, policy: &str, config: &str) -> WorkloadFields {
    WorkloadFields {
        agent: Some(agent.to_string()),
        runtime: Some(runtime.to_string()),
        restart_policy: Some(policy.to_string()),
        runtime_config: Some(config.to_string()),
    }
}

fn prop<'a>(c: &'a ComponentSpec, key: &str) -> Option<&'a str> {
    c.properties.as_ref()?.iter().find(|e| e.0 == key).and_then(|e| match &e.1 {
        JsonValue::Str(s) => Some(s.as_str()),
        _ => None,
    })
}

#[test]
fn get_enriches_known_workloads_and_drops_the_rest() {
    let mut orchestrator = InMemoryOrchestrator::new();
    orchestrator.workloads.push(("w1".to_string(), fields("A", "podman", "NEVER", "image: x")));
    let mut p = AnkaiosProvider::new(orchestrator);
    let references = vec![
        ComponentStep { action: ComponentAction::Update, component: comp("w1") },
        ComponentStep { action: ComponentAction::Update, component: comp("w2") },
    ];
    let result = p.get(&DeploymentSpec::empty(), references).expect("get succeeds");
    assert_eq!(result.len(), 1, "the unknown reference w2 is dropped");
    let c = &result[0];
    assert_eq!(c.name, "w1");
    assert_eq!(prop(c, "ankaios.agent"), Some("A"));
    assert_eq!(prop(c, "ankaios.runtime"), Some("podman"));
    assert_eq!(prop(c, "ankaios.restartPolicy"), Some("NEVER"));
    assert_eq!(prop(c, "ankaios.runtimeConfig"), Some("image: x"));
}

#[test]
fn get_keeps_reference_order() {
    let mut orchestrator = InMemoryOrchestrator::new();
    orchestrator.workloads.push(("b".to_string(), fields("A", "podman", "NEVER", "")));
    orchestrator.workloads.push(("a".to_string(), fields("A", "podman", "NEVER", "")));
    let mut p = AnkaiosProvider::new(orchestrator);
    let references = vec![
        ComponentStep { action: ComponentAction::Update, component: comp("a") },
        ComponentStep { action: ComponentAction::Update, component: comp("b") },
    ];
    let result = p.get(&DeploymentSpec::empty(), references).expect("get succeeds");
    let names: Vec<&str> = result.iter().map(|c| c.name.as_str()).collect();
    assert_eq!(names, vec!["a", "b"]);
}

#[test]
fn workload_defaults_fill_missing_properties() {
    let w = build_workload(&comp("plain"));
    assert_eq!(w.name, "plain");
    assert_eq!(w.agent, "agent_A");
    assert_eq!(w.runtime, "podman");
    assert_eq!(w.restart_policy, "NEVER");
    assert_eq!(w.runtime_config, "");
}

#[test]
fn workload_reads_ankaios_properties() {
    let mut c = comp("configured");
    c.properties = Some(vec![
        ("ankaios.agent".to_string(), JsonValue::Str("agent_B".to_string())),
        ("ankaios.runtime".to_string(), JsonValue::Str("containerd".to_string())),
        ("ankaios.restartPolicy".to_string(), JsonValue::Str("ALWAYS".to_string())),
        ("ankaios.runtimeConfig".to_string(), JsonValue::Str("image: y".to_string())),
    ]);
    let w = build_workload(&c);
    assert_eq!(w.agent, "agent_B");
    assert_eq!(w.runtime, "containerd");
    assert_eq!(w.restart_policy, "ALWAYS");
    assert_eq!(w.runtime_config, "image: y");
}

#[test]
fn apply_reports_one_entry_per_component() {
    let mut p = AnkaiosProvider::new(InMemoryOrchestrator::new());
    let step = DeploymentStep {
        target: None,
        components: vec![
            ComponentStep { action: ComponentAction::Update, component: comp("u") },
            ComponentStep { action: ComponentAction::Delete, component: comp("d") },
        ],
        role: String::new(),
        is_first: false,
    };
    let result = p.apply(&DeploymentSpec::empty(), step, false).expect("apply succeeds");
    assert_eq!(result.len(), 2);
    assert_eq!(result[0].0, "u");
    assert_eq!(result[0].1.status, State::OK);
    assert_eq!(result[0].1.message, "Component applied successfully");
    assert_eq!(result[1].0, "d");
    assert_eq!(result[1].1.status, State::OK);
    assert_eq!(result[1].1.message, "Component deleted successfully");
}

#[test]
fn apply_updates_the_orchestrator_state() {
    let mut p = AnkaiosProvider::new(InMemoryOrchestrator::new());
    let step = DeploymentStep {
        target: None,
        components: vec![ComponentStep { action: ComponentAction::Update, component: comp("w") }],
        role: String::new(),
        is_first: false,
    };
    p.apply(&DeploymentSpec::empty(), step, false).expect("apply succeeds");
    assert_eq!(p.orchestrator.workloads.len(), 1);
    assert_eq!(p.orchestrator.workloads[0].0, "w");
    assert_eq!(p.orchestrator.workloads[0].1.runtime.as_deref(), Some("podman"));

    let step = DeploymentStep {
        target: None,
        components: vec![ComponentStep { action: ComponentAction::Delete, component: comp("w") }],
        role: String::new(),
        is_first: false,
    };
    p.apply(&DeploymentSpec::empty(), step, false).expect("apply succeeds");
    assert!(p.orchestrator.workloads.is_empty());
}

#[test]
fn ankaios_dry_run_returns_empty_map() {
    let mut orchestrator = InMemoryOrchestrator::new();
    orchestrator.workloads.push(("w".to_string(), fields("A", "podman", "NEVER", "")));
    let mut p = AnkaiosProvider::new(orchestrator);
    let step = DeploymentStep {
        target: None,
        components: vec![ComponentStep { action: ComponentAction::Delete, component: comp("w") }],
        role: String::new(),
        is_first: false,
    };
    let result = p.apply(&DeploymentSpec::empty(), step, true).expect("dry run succeeds");
    assert!(result.is_empty());
    assert_eq!(p.orchestrator.workloads.len(), 1, "a dry run changes nothing");
}

#[test]
fn ankaios_publishes_the_default_rule() {
    let p = AnkaiosProvider::new(InMemoryOrchestrator::new());
    let rule = p.get_validation_rule().expect("rule is published");
    assert_eq!(rule.component_validation_rule.change_detection_properties[0].name, "*");
    assert!(rule.allow_sidecar);
}
