use symphony::json::JsonValue;
use symphony::uprotocol::{settings_from_config, ConfigError, TransportConfig};
use symphony::validation::parse_validation_rule;

fn s(v: &str) -> JsonValue {
    JsonValue::Str(v.to_string())
}

fn obj(entries: Vec<(&str, JsonValue)>) -> JsonValue {
    JsonValue::Obj(entries.into_iter().map(|(k, v)| (k.to_string(), v)).collect())
}

fn minimal_config() -> Vec<(&'static str, JsonValue)> {
    vec![
        ("localEntity", s("//symphony/1DA/2/0")),
        ("getMethodUri", s("//updater/BBC/1/1")),
    ]
}

#[test]
fn minimal_config_yields_defaults() {
    let settings = settings_from_config(&obj(minimal_config())).expect("config is acceptable");
    assert_eq!(settings.local_uri.authority, "symphony");
    assert_eq!(settings.local_uri.resource_id, 0);
    assert_eq!(settings.get_uri.authority, "updater");
    assert_eq!(settings.get_uri.entity_id, 0xBBC);
    assert_eq!(settings.get_uri.resource_id, 1);
    assert_eq!(settings.update_uri.resource_id, 2);
    assert_eq!(settings.update_uri.authority, "updater");
    assert_eq!(settings.update_uri.entity_id, 0xBBC);
    assert_eq!(settings.update_uri.version, 1);
    assert_eq!(settings.delete_uri.resource_id, 3);
    assert_eq!(settings.get_timeout, 120000);
    assert_eq!(settings.apply_timeout, 300000);
    assert!(matches!(settings.transport, TransportConfig::InProcess));
    let rule = settings.validation_rule;
    let cd = &rule.component_validation_rule.change_detection_properties;
    assert_eq!(cd.len(), 1);
    assert_eq!(cd[0].name, "*");
    assert!(cd[0].ignore_case);
    assert!(cd[0].skip_if_missing);
    assert!(!cd[0].prefix_match);
    assert!(!cd[0].is_component_name);
    assert!(rule.allow_sidecar);
    assert!(rule.scope_isolation);
    assert!(rule.instance_isolation);
}

#[test]
fn missing_local_entity_is_rejected() {
    let config = obj(vec![("getMethodUri", s("//updater/BBC/1/1"))]);
    assert_eq!(settings_from_config(&config).unwrap_err(), ConfigError::MissingLocalEntity);
}

#[test]
fn missing_get_uri_is_rejected() {
    let config = obj(vec![("localEntity", s("//symphony/1DA/2/0"))]);
    assert_eq!(settings_from_config(&config).unwrap_err(), ConfigError::MissingGetUri);
}

#[test]
fn local_entity_must_be_response_only() {
    let config = obj(vec![
        ("localEntity", s("//symphony/1DA/2/BA")),
        ("getMethodUri", s("//updater/BBC/1/1")),
    ]);
    assert_eq!(
        settings_from_config(&config).unwrap_err(),
        ConfigError::LocalEntityNotRpcResponse
    );
}

#[test]
fn get_uri_must_carry_resource_id_one() {
    let config = obj(vec![
        ("localEntity", s("//symphony/1DA/2/0")),
        ("getMethodUri", s("//updater/BBC/1/BA")),
    ]);
    assert_eq!(settings_from_config(&config).unwrap_err(), ConfigError::GetUriWrongResource);
}

#[test]
fn both_transports_configured_is_rejected() {
    let mut entries = minimal_config();
    entries.push(("zenohConfig", s("/path/to/zenoh/config")));
    entries.push(("brokerAddress", s("mqtt://broker.address:1883")));
    assert_eq!(
        settings_from_config(&obj(entries)).unwrap_err(),
        ConfigError::ConflictingTransports
    );
}

#[test]
fn single_transports_are_accepted() {
    let mut entries = minimal_config();
    entries.push(("zenohConfig", s("/path/to/zenoh/config")));
    let settings = settings_from_config(&obj(entries)).expect("zenoh config is acceptable");
    match settings.transport {
        TransportConfig::Zenoh(path) => assert_eq!(path, "/path/to/zenoh/config"),
        _ => panic!("expected the Zenoh transport"),
    }

    let mut entries = minimal_config();
    entries.push(("brokerAddress", s("mqtt://broker.address:1883")));
    entries.push(("clientID", s("provider-1")));
    let settings = settings_from_config(&obj(entries)).expect("broker config is acceptable");
    match settings.transport {
        TransportConfig::Mqtt5 { broker, client_id } => {
            assert_eq!(broker, "mqtt://broker.address:1883");
            assert_eq!(client_id.as_deref(), Some("provider-1"));
        },
        _ => panic!("expected the MQTT 5 transport"),
    }
}

#[test]
fn timeouts_are_read_from_strings() {
    let mut entries = minimal_config();
    entries.push(("getMethodTimeoutMillis", s("5000")));
    entries.push(("applyMethodTimeoutMillis", s("60000")));
    let settings = settings_from_config(&obj(entries)).expect("timeouts are acceptable");
    assert_eq!(settings.get_timeout, 5000);
    assert_eq!(settings.apply_timeout, 60000);
}

#[test]
fn oversized_or_malformed_timeouts_are_rejected() {
    let mut entries = minimal_config();
    entries.push(("getMethodTimeoutMillis", s("99999999999")));
    assert_eq!(settings_from_config(&obj(entries)).unwrap_err(), ConfigError::InvalidGetTimeout);

    let mut entries = minimal_config();
    entries.push(("applyMethodTimeoutMillis", s("soon")));
    assert_eq!(
        settings_from_config(&obj(entries)).unwrap_err(),
        ConfigError::InvalidApplyTimeout
    );
}

fn prop_desc_entries(order_swapped: bool) -> Vec<(&'static str, JsonValue)> {
    let mut entries = vec![
        ("name", s("*")),
        ("ignoreCase", JsonValue::Bool(true)),
        ("skipIfMissing", JsonValue::Bool(true)),
        ("prefixMatch", JsonValue::Bool(false)),
        ("isComponentName", JsonValue::Bool(false)),
    ];
    if order_swapped {
        entries.reverse();
    }
    entries
}

fn component_rule(order_swapped: bool) -> Vec<(&'static str, JsonValue)> {
    let mut entries = vec![
        ("requiredType", s("container")),
        ("changeDetection", JsonValue::Arr(vec![obj(prop_desc_entries(order_swapped))])),
        ("changeDetectionMetadata", JsonValue::Arr(vec![])),
        ("requiredProperties", JsonValue::Arr(vec![s("container.image")])),
        ("optionalProperties", JsonValue::Arr(vec![s("container.ports")])),
        ("requiredMetadata", JsonValue::Arr(vec![])),
        ("optionalMetadata", JsonValue::Arr(vec![])),
    ];
    if order_swapped {
        entries.reverse();
    }
    entries
}

fn rule_value(order_swapped: bool) -> JsonValue {
    let mut entries = vec![
        ("requiredType", s("container")),
        ("componentValidationRule", obj(component_rule(order_swapped))),
        ("sidecarValidationRule", obj(component_rule(order_swapped))),
        ("allowSidecar", JsonValue::Bool(false)),
        ("supportScopes", JsonValue::Bool(true)),
        ("instanceIsolation", JsonValue::Bool(false)),
    ];
    if order_swapped {
        entries.reverse();
    }
    obj(entries)
}

#[test]
fn validation_rule_parses_identically_regardless_of_property_order() {
    let a = parse_validation_rule(&rule_value(false)).expect("rule is well-formed");
    let b = parse_validation_rule(&rule_value(true)).expect("rule is well-formed");
    assert_eq!(a.required_component_type, b.required_component_type);
    assert_eq!(a.allow_sidecar, b.allow_sidecar);
    assert_eq!(a.scope_isolation, b.scope_isolation);
    assert_eq!(a.instance_isolation, b.instance_isolation);
    for (x, y) in [
        (&a.component_validation_rule, &b.component_validation_rule),
        (&a.sidecar_validation_rule, &b.sidecar_validation_rule),
    ] {
        assert_eq!(x.required_component_type, y.required_component_type);
        assert_eq!(x.change_detection_properties.len(), y.change_detection_properties.len());
        for (d, e) in
            x.change_detection_properties.iter().zip(y.change_detection_properties.iter())
        {
            assert_eq!(d.name, e.name);
            assert_eq!(d.ignore_case, e.ignore_case);
            assert_eq!(d.skip_if_missing, e.skip_if_missing);
            assert_eq!(d.prefix_match, e.prefix_match);
            assert_eq!(d.is_component_name, e.is_component_name);
        }
        assert_eq!(x.required_properties, y.required_properties);
        assert_eq!(x.optional_properties, y.optional_properties);
        assert_eq!(x.required_metadata, y.required_metadata);
        assert_eq!(x.optional_metadata, y.optional_metadata);
    }
}

#[test]
fn custom_validation_rule_is_captured() {
    let mut entries = minimal_config();
    entries.push(("validationRule", rule_value(false)));
    let settings = settings_from_config(&obj(entries)).expect("rule is well-formed");
    let rule = settings.validation_rule;
    assert_eq!(rule.required_component_type, "container");
    assert!(!rule.allow_sidecar);
    assert!(rule.scope_isolation);
    assert!(!rule.instance_isolation);
    assert_eq!(rule.component_validation_rule.required_properties, vec!["container.image"]);
}

#[test]
fn malformed_validation_rule_is_rejected() {
    let mut entries = minimal_config();
    entries.push(("validationRule", obj(vec![("requiredType", s("container"))])));
    assert_eq!(
        settings_from_config(&obj(entries)).unwrap_err(),
        ConfigError::InvalidValidationRule
    );
}

#[test]
fn config_errors_carry_a_description() {
    assert_eq!(
        ConfigError::ConflictingTransports.describe(),
        "both Zenoh and MQTT5 transport configured, only one transport can be used"
    );
    assert_eq!(ConfigError::MissingLocalEntity.describe(),
        "JSON config does not contain required localEntity String property");
}

#[test]
fn unparseable_local_entity_is_rejected() {
    let config = obj(vec![
        ("localEntity", s("not a uri")),
        ("getMethodUri", s("//updater/BBC/1/1")),
    ]);
    assert_eq!(settings_from_config(&config).unwrap_err(), ConfigError::InvalidLocalEntity);
}

#[test]
fn unparseable_get_uri_is_rejected() {
    let config = obj(vec![
        ("localEntity", s("//symphony/1DA/2/0")),
        ("getMethodUri", s("updater-without-scheme")),
    ]);
    assert_eq!(settings_from_config(&config).unwrap_err(), ConfigError::InvalidGetUri);
}

#[test]
fn timeout_accepts_the_full_u32_range() {
    let mut entries = minimal_config();
    entries.push(("getMethodTimeoutMillis", s("4294967295")));
    let settings = settings_from_config(&obj(entries)).expect("u32::MAX fits");
    assert_eq!(settings.get_timeout, u32::MAX);

    let mut entries = minimal_config();
    entries.push(("getMethodTimeoutMillis", s("4294967296")));
    assert_eq!(settings_from_config(&obj(entries)).unwrap_err(), ConfigError::InvalidGetTimeout);
}

#[test]
fn first_entry_wins_a_duplicate_config_key() {
    let config = obj(vec![
        ("localEntity", s("//symphony/1DA/2/0")),
        ("getMethodUri", s("//updater/BBC/1/1")),
        ("getMethodTimeoutMillis", s("1000")),
        ("getMethodTimeoutMillis", s("2000")),
    ]);
    let settings = settings_from_config(&config).expect("config is acceptable");
    assert_eq!(settings.get_timeout, 1000);
}
