use symphony::mock::MockProvider;
use symphony::models::{
    ComponentAction, ComponentSpec, ComponentStep, DeploymentSpec, DeploymentStep,
};
use symphony::provider::ITargetProvider;
use symphony::State;

fn comp(name: &str) -> ComponentSpec {
    ComponentSpec {
        name: name.to_string(),
        component_type: None,
        metadata: None,
        properties: None,
        parameters: None,
        routes: None,
        constraints: None,
        dependencies: None,
        skills: None,
        sidecars: None,
    }
}

#[test]
fn mock_publishes_the_default_rule() {
    let p = MockProvider::new();
    let rule = p.get_validation_rule().expect("rule is published");
    assert_eq!(rule.required_component_type, "");
    let cd = &rule.component_validation_rule.change_detection_properties;
    assert_eq!(cd.len(), 1);
    assert_eq!(cd[0].name, "*");
    assert!(cd[0].ignore_case);
    assert!(cd[0].skip_if_missing);
    assert!(rule.allow_sidecar);
    assert!(rule.scope_isolation);
    assert!(rule.instance_isolation);
}

#[test]
fn mock_get_answers_the_example_component() {
    let mut p = MockProvider::new();
    let result = p.get(&DeploymentSpec::empty(), vec![]).expect("get succeeds");
    assert_eq!(result.len(), 1);
    assert_eq!(result[0].name, "example_component");
    assert_eq!(result[0].component_type.as_deref(), Some("example_type"));
    assert_eq!(result[0].constraints.as_deref(), Some("example_constraint"));
}

#[test]
fn mock_apply_reports_success_per_component() {
    let mut p = MockProvider::new();
    let step = DeploymentStep {
        target: None,
        components: vec![
            ComponentStep { action: ComponentAction::Update, component: comp("one") },
            ComponentStep { action: ComponentAction::Delete, component: comp("two") },
        ],
        role: String::new(),
        is_first: false,
    };
    let result = p.apply(&DeploymentSpec::empty(), step, false).expect("apply succeeds");
    assert_eq!(result.len(), 2);
    assert_eq!(result[0].0, "one");
    assert_eq!(result[0].1.status, State::OK);
    assert_eq!(result[0].1.message, "Component one applied successfully");
    assert_eq!(result[1].0, "two");
    assert_eq!(result[1].1.message, "Component two applied successfully");
}

#[test]
fn mock_dry_run_returns_empty_map() {
    let mut p = MockProvider::new();
    let step = DeploymentStep {
        target: None,
        components: vec![ComponentStep { action: ComponentAction::Update, component: comp("one") }],
        role: String::new(),
        is_first: false,
    };
    let result = p.apply(&DeploymentSpec::empty(), step, true).expect("dry run succeeds");
    assert!(result.is_empty());
}
