use symphony::json::JsonValue;
use symphony::models::{
    ComponentAction, ComponentResultSpec, ComponentSpec, ComponentStep, DeploymentSpec,
    DeploymentStep, ResultMap,
};
use symphony::provider::ITargetProvider;
use symphony::uprotocol::{settings_from_config, RecordingTransport, UProtocolProvider};
use symphony::State;

fn comp(name: &str) -> ComponentSpec {
    ComponentSpec {
        name: name.to_string(),
        component_type: None,
        metadata: None,
        properties: None,
        parameters: None,
        routes: None,
        constraints: None,
        dependencies: None,
        skills: None,
        sidecars: None,
    }
}

fn step_of(pairs: Vec<(ComponentAction, &str)>) -> DeploymentStep {
    DeploymentStep {
        target: None,
        components: pairs
            .into_iter()
            .map(|(action, name)| ComponentStep { action, component: comp(name) })
            .collect(),
        role: String::new(),
        is_first: false,
    }
}

fn ok_entry(name: &str, message: &str) -> (String, ComponentResultSpec) {
    (
        name.to_string(),
        ComponentResultSpec { status: State::OK, message: message.to_string() },
    )
}

fn provider() -> UProtocolProvider<RecordingTransport> {
    let config = JsonValue::Obj(vec![
        ("localEntity".to_string(), JsonValue::Str("//symphony/1DA/2/0".to_string())),
        ("getMethodUri".to_string(), JsonValue::Str("//updater/BBC/1/1".to_string())),
    ]);
    let settings = settings_from_config(&config).expect("config is acceptable");
    UProtocolProvider::new(settings, RecordingTransport::new())
}

fn keys(m: &ResultMap) -> Vec<String> {
    m.iter().map(|e| e.0.clone()).collect()
}

#[test]
fn dry_run_returns_empty_map_and_sends_nothing() {
    let mut p = provider();
    let step = step_of(vec![(ComponentAction::Update, "comp-a")]);
    let result = p.apply(&DeploymentSpec::empty(), step, true).expect("dry run succeeds");
    assert!(result.is_empty());
    assert!(p.transport.records.is_empty(), "a dry run must not send an RPC");
}

#[test]
fn apply_partitions_deletes_first_and_merges() {
    let mut p = provider();
    p.transport.apply_responses.push(vec![ok_entry("b", "deleted")]);
    p.transport.apply_responses.push(vec![ok_entry("a", "updated"), ok_entry("c", "updated")]);
    let step = step_of(vec![
        (ComponentAction::Update, "a"),
        (ComponentAction::Delete, "b"),
        (ComponentAction::Update, "c"),
    ]);
    let result = p.apply(&DeploymentSpec::empty(), step, false).expect("apply succeeds");

    assert_eq!(p.transport.records.len(), 2, "exactly two RPCs");
    let delete = &p.transport.records[0];
    assert_eq!(delete.method.resource_id, 3, "DELETE goes first");
    assert_eq!(delete.method.authority, "updater");
    assert_eq!(delete.method.entity_id, 0xBBC);
    assert_eq!(delete.timeout_ms, 300000);
    assert_eq!(delete.component_names, vec!["b"]);
    let update = &p.transport.records[1];
    assert_eq!(update.method.resource_id, 2, "UPDATE goes second");
    assert_eq!(update.component_names, vec!["a", "c"]);

    assert_eq!(keys(&result), vec!["a", "b", "c"]);
    for (_, r) in &result {
        assert_eq!(r.status, State::OK);
    }
}

#[test]
fn empty_step_applies_without_rpc() {
    let mut p = provider();
    let step = step_of(vec![]);
    let result = p.apply(&DeploymentSpec::empty(), step, false).expect("apply succeeds");
    assert!(result.is_empty());
    assert!(p.transport.records.is_empty(), "an empty step must not send an RPC");
}

#[test]
fn update_side_wins_a_name_scheduled_for_both() {
    let mut p = provider();
    p.transport.apply_responses.push(vec![ok_entry("x", "delete outcome")]);
    p.transport.apply_responses.push(vec![ok_entry("x", "update outcome")]);
    let step = step_of(vec![(ComponentAction::Update, "x"), (ComponentAction::Delete, "x")]);
    let result = p.apply(&DeploymentSpec::empty(), step, false).expect("apply succeeds");
    assert_eq!(result.len(), 1);
    assert_eq!(result[0].0, "x");
    assert_eq!(result[0].1.message, "update outcome");
}

#[test]
fn delete_only_step_skips_the_update_rpc() {
    let mut p = provider();
    p.transport.apply_responses.push(vec![ok_entry("gone", "deleted")]);
    let step = step_of(vec![(ComponentAction::Delete, "gone")]);
    let result = p.apply(&DeploymentSpec::empty(), step, false).expect("apply succeeds");
    assert_eq!(p.transport.records.len(), 1);
    assert_eq!(p.transport.records[0].method.resource_id, 3);
    assert_eq!(keys(&result), vec!["gone"]);
}

#[test]
fn missing_name_in_response_is_an_error() {
    let mut p = provider();
    p.transport.apply_responses.push(vec![ok_entry("other", "deleted")]);
    let step = step_of(vec![(ComponentAction::Delete, "gone")]);
    let err = p.apply(&DeploymentSpec::empty(), step, false).unwrap_err();
    assert_eq!(err, "target provider response does not cover the requested components");
}

#[test]
fn empty_apply_response_is_an_error() {
    let mut p = provider();
    let step = step_of(vec![(ComponentAction::Delete, "gone")]);
    let err = p.apply(&DeploymentSpec::empty(), step, false).unwrap_err();
    assert_eq!(err, "target provider returned empty response to request");
}

#[test]
fn get_sends_references_and_filters_the_answer() {
    let mut p = provider();
    p.transport.get_responses.push(vec![comp("stranger"), comp("b"), comp("a")]);
    let references = vec![
        ComponentStep { action: ComponentAction::Update, component: comp("a") },
        ComponentStep { action: ComponentAction::Update, component: comp("b") },
    ];
    let result = p.get(&DeploymentSpec::empty(), references).expect("get succeeds");
    let names: Vec<&str> = result.iter().map(|c| c.name.as_str()).collect();
    assert_eq!(names, vec!["a", "b"], "answers follow reference order, nothing new is added");

    assert_eq!(p.transport.records.len(), 1);
    assert_eq!(p.transport.records[0].method.resource_id, 1);
    assert_eq!(p.transport.records[0].timeout_ms, 120000);
    assert_eq!(p.transport.records[0].component_names, vec!["a", "b"]);
}

#[test]
fn empty_get_response_is_an_error() {
    let mut p = provider();
    let references = vec![ComponentStep { action: ComponentAction::Update, component: comp("a") }];
    let err = p.get(&DeploymentSpec::empty(), references).unwrap_err();
    assert_eq!(err, "target provider returned empty response to Get request");
}

#[test]
fn validation_rule_is_the_captured_one() {
    let p = provider();
    let rule = p.get_validation_rule().expect("rule is published");
    assert_eq!(rule.component_validation_rule.change_detection_properties[0].name, "*");
    assert!(rule.allow_sidecar);
}
