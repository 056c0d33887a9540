//! The uProtocol remote target provider.
//!
//! The provider reconciles components by invoking three methods on one
//! remote entity: GET (resource id 1), UPDATE (2) and DELETE (3), the latter
//! two derived from the GET URI. A configuration object selects the local
//! entity, the GET method URI, timeouts, the transport, and optionally a
//! custom validation rule. The RPC itself goes through the [`UProtocolRpc`]
//! trait; [`RecordingTransport`] is the in-process implementation used for
//! tests and development.

use vstd::prelude::*;

use crate::json::{get_string_property, spec_string_property, JsonValue};
use crate::kvlist;
use crate::models::{
    is_default_rule, ComponentResultSpec, ComponentSpec, ComponentStep, DeploymentSpec,
    DeploymentStep, ProviderConfig, ResultMap, ValidationRule,
};
use crate::models::{outline_view, spec_component_names, spec_distinct_names, spec_name_is_update, spec_outline, spec_step_names, ComponentAction};
use crate::strutil::{all_dec, dec_value, parse_decimal, str_eq};
use crate::uri::{spec_parse_uuri, UUri};
use crate::models::same_rule;
use crate::provider::ITargetProvider;
use crate::validation::{parse_validation_rule, rule_obj_matches, rule_shape_ok};

verus! {

/// Which transport the provider talks through.
#[derive(Debug)]
pub enum TransportConfig {
    /// Eclipse Zenoh, configured from the file at the given absolute path.
    Zenoh(String),
    /// MQTT 5, over the given broker address, optionally with a client id.
    Mqtt5 { broker: String, client_id: Option<String> },
    /// In-process only; for tests and development.
    InProcess,
}

/// Why a provider configuration was rejected.
#[derive(Clone, Copy, PartialEq, Eq, Structural, Debug)]
pub enum ConfigError {
    MissingLocalEntity,
    InvalidLocalEntity,
    LocalEntityNotRpcResponse,
    MissingGetUri,
    InvalidGetUri,
    GetUriWrongResource,
    ConflictingTransports,
    InvalidGetTimeout,
    InvalidApplyTimeout,
    InvalidValidationRule,
}

impl ConfigError {
    /// A line describing the rejection.
    pub fn describe(&self) -> (r: String)
        ensures
            match *self {
                ConfigError::MissingLocalEntity => r@
                    == "JSON config does not contain required localEntity String property"@,
                ConfigError::InvalidLocalEntity => r@ == "failed to create Local Entity URI"@,
                ConfigError::LocalEntityNotRpcResponse => r@
                    == "Local Entity URI must have resource ID 0x0000"@,
                ConfigError::MissingGetUri => r@
                    == "JSON config does not contain required getMethodUri String property"@,
                ConfigError::InvalidGetUri => r@ == "failed to create Get method URI"@,
                ConfigError::GetUriWrongResource => r@ == "Get URI must have resource ID 1"@,
                ConfigError::ConflictingTransports => r@
                    == "both Zenoh and MQTT5 transport configured, only one transport can be used"@,
                ConfigError::InvalidGetTimeout => r@
                    == "getMethodTimeoutMillis must not exceed 2^32"@,
                ConfigError::InvalidApplyTimeout => r@
                    == "applyMethodTimeoutMillis must not exceed 2^32"@,
                ConfigError::InvalidValidationRule => r@
                    == "failed to create ValidationRule from JSON config"@,
            },
    {
        match *self {
            ConfigError::MissingLocalEntity => String::from_str(
                "JSON config does not contain required localEntity String property",
            ),
            ConfigError::InvalidLocalEntity => String::from_str(
                "failed to create Local Entity URI",
            ),
            ConfigError::LocalEntityNotRpcResponse => String::from_str(
                "Local Entity URI must have resource ID 0x0000",
            ),
            ConfigError::MissingGetUri => String::from_str(
                "JSON config does not contain required getMethodUri String property",
            ),
            ConfigError::InvalidGetUri => String::from_str("failed to create Get method URI"),
            ConfigError::GetUriWrongResource => String::from_str(
                "Get URI must have resource ID 1",
            ),
            ConfigError::ConflictingTransports => String::from_str(
                "both Zenoh and MQTT5 transport configured, only one transport can be used",
            ),
            ConfigError::InvalidGetTimeout => String::from_str(
                "getMethodTimeoutMillis must not exceed 2^32",
            ),
            ConfigError::InvalidApplyTimeout => String::from_str(
                "applyMethodTimeoutMillis must not exceed 2^32",
            ),
            ConfigError::InvalidValidationRule => String::from_str(
                "failed to create ValidationRule from JSON config",
            ),
        }
    }
}

/// Everything a provider needs, read out of its configuration.
#[derive(Debug)]
pub struct ProviderSettings {
    pub local_uri: UUri,
    pub get_uri: UUri,
    pub update_uri: UUri,
    pub delete_uri: UUri,
    pub get_timeout: u32,
    pub apply_timeout: u32,
    pub transport: TransportConfig,
    pub validation_rule: ValidationRule,
}

/// The parts of the URI named by the `localEntity` property, if that
/// property is a string holding a well-formed URI.
pub open spec fn spec_local_parts(c: JsonValue) -> Option<(Seq<char>, nat, nat, nat)> {
    match spec_string_property(c, "localEntity"@) {
        Some(ls) => spec_parse_uuri(ls),
        None => None,
    }
}

/// The local entity is well-formed and can only answer calls.
pub open spec fn spec_local_ok(c: JsonValue) -> bool {
    match spec_local_parts(c) {
        Some(p) => p.3 == 0,
        None => false,
    }
}

/// The parts of the URI named by the `getMethodUri` property.
pub open spec fn spec_get_parts(c: JsonValue) -> Option<(Seq<char>, nat, nat, nat)> {
    match spec_string_property(c, "getMethodUri"@) {
        Some(gs) => spec_parse_uuri(gs),
        None => None,
    }
}

/// The GET method URI is well-formed and carries resource id 1.
pub open spec fn spec_get_ok(c: JsonValue) -> bool {
    match spec_get_parts(c) {
        Some(p) => p.3 == 1,
        None => false,
    }
}

/// At most one of the Zenoh and MQTT 5 transports is configured.
pub open spec fn spec_no_transport_conflict(c: JsonValue) -> bool {
    !(spec_string_property(c, "zenohConfig"@) is Some && spec_string_property(
        c,
        "brokerAddress"@,
    ) is Some)
}

/// The timeout under `key` is either absent or a string of decimal digits
/// whose value fits 32 bits.
pub open spec fn spec_timeout_ok(c: JsonValue, key: Seq<char>) -> bool {
    match spec_string_property(c, key) {
        None => true,
        Some(ts) => ts.len() > 0 && all_dec(ts) && dec_value(ts) <= 0xFFFF_FFFF,
    }
}

/// The timeout under `key`, or the default when the property is absent.
pub open spec fn spec_timeout_value(c: JsonValue, key: Seq<char>, default: nat) -> nat {
    match spec_string_property(c, key) {
        None => default,
        Some(ts) => dec_value(ts),
    }
}

/// The value of the `validationRule` property, if present.
pub open spec fn spec_rule_value(c: JsonValue) -> Option<JsonValue> {
    match c {
        JsonValue::Obj(entries) => kvlist::spec_lookup(entries@, "validationRule"@),
        _ => None,
    }
}

/// The `validationRule` property, when present, has the rule shape.
pub open spec fn spec_rule_ok(c: JsonValue) -> bool {
    match spec_rule_value(c) {
        None => true,
        Some(v) => rule_shape_ok(v),
    }
}

/// The rule reads exactly the fields of the JSON value.
pub open spec fn rule_matches_value(r: ValidationRule, v: JsonValue) -> bool {
    match v {
        JsonValue::Obj(entries) => rule_obj_matches(r, entries@),
        _ => false,
    }
}

/// The whole configuration is acceptable.
pub open spec fn spec_config_ok(c: JsonValue) -> bool {
    &&& spec_local_ok(c)
    &&& spec_get_ok(c)
    &&& spec_no_transport_conflict(c)
    &&& spec_timeout_ok(c, "getMethodTimeoutMillis"@)
    &&& spec_timeout_ok(c, "applyMethodTimeoutMillis"@)
    &&& spec_rule_ok(c)
}

/// The settings read exactly the configuration: URIs as configured, UPDATE
/// and DELETE derived from GET by resource ids 2 and 3, timeouts as given
/// or their defaults, the transport selected by which of `zenohConfig` and
/// `brokerAddress` is present, and the validation rule as configured or the
/// default.
pub open spec fn settings_match_config(s: ProviderSettings, c: JsonValue) -> bool {
    &&& spec_local_parts(c) == Some(
        (
            s.local_uri.authority@,
            s.local_uri.entity_id as nat,
            s.local_uri.version as nat,
            s.local_uri.resource_id as nat,
        ),
    )
    &&& s.local_uri.resource_id == 0
    &&& spec_get_parts(c) == Some(
        (
            s.get_uri.authority@,
            s.get_uri.entity_id as nat,
            s.get_uri.version as nat,
            s.get_uri.resource_id as nat,
        ),
    )
    &&& s.get_uri.resource_id == 1
    &&& s.update_uri.authority@ == s.get_uri.authority@
    &&& s.update_uri.entity_id == s.get_uri.entity_id
    &&& s.update_uri.version == s.get_uri.version
    &&& s.update_uri.resource_id == 2
    &&& s.delete_uri.authority@ == s.get_uri.authority@
    &&& s.delete_uri.entity_id == s.get_uri.entity_id
    &&& s.delete_uri.version == s.get_uri.version
    &&& s.delete_uri.resource_id == 3
    &&& s.get_timeout as nat == spec_timeout_value(c, "getMethodTimeoutMillis"@, 120000)
    &&& s.apply_timeout as nat == spec_timeout_value(c, "applyMethodTimeoutMillis"@, 300000)
    &&& {
        let z = spec_string_property(c, "zenohConfig"@);
        let b = spec_string_property(c, "brokerAddress"@);
        match s.transport {
            TransportConfig::Zenoh(p) => b is None && match z {
                Some(zp) => p@ == zp,
                None => false,
            },
            TransportConfig::Mqtt5 { broker, client_id } => {
                &&& z is None
                &&& match b {
                    Some(bb) => broker@ == bb,
                    None => false,
                }
                &&& match (client_id, spec_string_property(c, "clientID"@)) {
                    (Some(ci), Some(cs)) => ci@ == cs,
                    (None, None) => true,
                    _ => false,
                }
            },
            TransportConfig::InProcess => z is None && b is None,
        }
    }
    &&& match spec_rule_value(c) {
        None => is_default_rule(s.validation_rule),
        Some(v) => rule_matches_value(s.validation_rule, v),
    }
}

/// Reads provider settings out of a configuration object.
///
/// Succeeds exactly on acceptable configurations; each rejection names the
/// first check that failed, in the order: local entity present, parseable,
/// response-only; GET URI present, parseable, resource id 1; no transport
/// conflict; GET timeout; apply timeout; validation rule shape.
pub fn settings_from_config(config: &ProviderConfig) -> (r: Result<ProviderSettings, ConfigError>)
    ensures
        r is Ok <==> spec_config_ok(*config),
        r is Ok ==> settings_match_config(r->Ok_0, *config),
        (r == Result::<ProviderSettings, ConfigError>::Err(ConfigError::MissingLocalEntity))
            <==> spec_string_property(*config, "localEntity"@) is None,
        (r == Result::<ProviderSettings, ConfigError>::Err(ConfigError::InvalidLocalEntity))
            <==> (spec_string_property(*config, "localEntity"@) is Some && spec_local_parts(
            *config,
        ) is None),
        (r == Result::<ProviderSettings, ConfigError>::Err(ConfigError::LocalEntityNotRpcResponse))
            <==> (spec_local_parts(*config) is Some && !spec_local_ok(*config)),
        (r == Result::<ProviderSettings, ConfigError>::Err(ConfigError::MissingGetUri)) <==> (
        spec_local_ok(*config) && spec_string_property(*config, "getMethodUri"@) is None),
        (r == Result::<ProviderSettings, ConfigError>::Err(ConfigError::InvalidGetUri)) <==> (
        spec_local_ok(*config) && spec_string_property(*config, "getMethodUri"@) is Some
            && spec_get_parts(*config) is None),
        (r == Result::<ProviderSettings, ConfigError>::Err(ConfigError::GetUriWrongResource))
            <==> (spec_local_ok(*config) && spec_get_parts(*config) is Some && !spec_get_ok(
            *config,
        )),
        (r == Result::<ProviderSettings, ConfigError>::Err(ConfigError::ConflictingTransports))
            <==> (spec_local_ok(*config) && spec_get_ok(*config) && !spec_no_transport_conflict(
            *config,
        )),
        (r == Result::<ProviderSettings, ConfigError>::Err(ConfigError::InvalidGetTimeout)) <==> (
        spec_local_ok(*config) && spec_get_ok(*config) && spec_no_transport_conflict(*config)
            && !spec_timeout_ok(*config, "getMethodTimeoutMillis"@)),
        (r == Result::<ProviderSettings, ConfigError>::Err(ConfigError::InvalidApplyTimeout))
            <==> (spec_local_ok(*config) && spec_get_ok(*config) && spec_no_transport_conflict(
            *config,
        ) && spec_timeout_ok(*config, "getMethodTimeoutMillis"@) && !spec_timeout_ok(
            *config,
            "applyMethodTimeoutMillis"@,
        )),
        (r == Result::<ProviderSettings, ConfigError>::Err(ConfigError::InvalidValidationRule))
            <==> (spec_local_ok(*config) && spec_get_ok(*config) && spec_no_transport_conflict(
            *config,
        ) && spec_timeout_ok(*config, "getMethodTimeoutMillis"@) && spec_timeout_ok(
            *config,
            "applyMethodTimeoutMillis"@,
        ) && !spec_rule_ok(*config)),
{
    let local_str = match get_string_property(config, "localEntity") {
        Some(s) => s,
        None => {
            return Err(ConfigError::MissingLocalEntity);
        },
    };
    let local_uri = match UUri::parse(local_str.as_str()) {
        Some(u) => u,
        None => {
            return Err(ConfigError::InvalidLocalEntity);
        },
    };
    if !local_uri.is_rpc_response() {
        return Err(ConfigError::LocalEntityNotRpcResponse);
    }
    let get_str = match get_string_property(config, "getMethodUri") {
        Some(s) => s,
        None => {
            return Err(ConfigError::MissingGetUri);
        },
    };
    let get_uri = match UUri::parse(get_str.as_str()) {
        Some(u) => u,
        None => {
            return Err(ConfigError::InvalidGetUri);
        },
    };
    if get_uri.resource_id != 1 {
        return Err(ConfigError::GetUriWrongResource);
    }
    let zenoh = get_string_property(config, "zenohConfig");
    let broker = get_string_property(config, "brokerAddress");
    let transport = match (zenoh, broker) {
        (Some(_), Some(_)) => {
            return Err(ConfigError::ConflictingTransports);
        },
        (Some(path), None) => TransportConfig::Zenoh(path),
        (None, Some(b)) => TransportConfig::Mqtt5 {
            broker: b,
            client_id: get_string_property(config, "clientID"),
        },
        (None, None) => TransportConfig::InProcess,
    };
    let get_timeout: u32 = match get_string_property(config, "getMethodTimeoutMillis") {
        Some(ts) => match parse_decimal(ts.as_str(), 0xFFFF_FFFF) {
            Some(v) => v as u32,
            None => {
                return Err(ConfigError::InvalidGetTimeout);
            },
        },
        None => 120000,
    };
    let apply_timeout: u32 = match get_string_property(config, "applyMethodTimeoutMillis") {
        Some(ts) => match parse_decimal(ts.as_str(), 0xFFFF_FFFF) {
            Some(v) => v as u32,
            None => {
                return Err(ConfigError::InvalidApplyTimeout);
            },
        },
        None => 300000,
    };
    let validation_rule = match config {
        JsonValue::Obj(entries) => match kvlist::lookup(entries, "validationRule") {
            Some(v) => match parse_validation_rule(v) {
                Some(rule) => {
                    proof {
                        crate::validation::lemma_rule_matches_implies_shape(rule, v->Obj_0@);
                    }
                    rule
                },
                None => {
                    return Err(ConfigError::InvalidValidationRule);
                },
            },
            None => ValidationRule::new(),
        },
        _ => ValidationRule::new(),
    };
    let update_uri = get_uri.with_resource_id(2);
    let delete_uri = get_uri.with_resource_id(3);
    Ok(
        ProviderSettings {
            local_uri,
            get_uri,
            update_uri,
            delete_uri,
            get_timeout,
            apply_timeout,
            transport,
            validation_rule,
        },
    )
}

/// The components scheduled for update, in step order.
pub open spec fn spec_updates(components: Seq<ComponentStep>) -> Seq<ComponentSpec>
    decreases components.len(),
{
    if components.len() == 0 {
        Seq::empty()
    } else {
        let rest = spec_updates(components.drop_last());
        if components.last().action is Update {
            rest.push(components.last().component)
        } else {
            rest
        }
    }
}

/// The components scheduled for deletion, in step order.
pub open spec fn spec_deletes(components: Seq<ComponentStep>) -> Seq<ComponentSpec>
    decreases components.len(),
{
    if components.len() == 0 {
        Seq::empty()
    } else {
        let rest = spec_deletes(components.drop_last());
        if components.last().action is Delete {
            rest.push(components.last().component)
        } else {
            rest
        }
    }
}

/// Splits a step's components into the update and delete lists, both in
/// step order, together with the step's outline of `(name, action)` pairs.
pub fn partition_step(components: Vec<ComponentStep>) -> (r: (
    Vec<ComponentSpec>,
    Vec<ComponentSpec>,
    Vec<(String, ComponentAction)>,
))
    ensures
        r.0@ == spec_updates(components@),
        r.1@ == spec_deletes(components@),
        outline_view(r.2@) == spec_outline(components@),
{
    let ghost orig = components@;
    let mut rest = components;
    let mut updates: Vec<ComponentSpec> = Vec::new();
    let mut deletes: Vec<ComponentSpec> = Vec::new();
    let mut outline: Vec<(String, ComponentAction)> = Vec::new();
    proof {
        assert(orig.skip(0) =~= orig);
        assert(orig.take(0) =~= Seq::<ComponentStep>::empty());
    }
    while rest.len() > 0
        invariant
            outline@.len() + rest@.len() == orig.len(),
            rest@ == orig.skip(outline@.len() as int),
            updates@ == spec_updates(orig.take(outline@.len() as int)),
            deletes@ == spec_deletes(orig.take(outline@.len() as int)),
            forall|j: int|
                0 <= j < outline@.len() ==> (#[trigger] outline@[j]).0@ == orig[j].component.name@
                    && outline@[j].1 == orig[j].action,
        decreases rest@.len(),
    {
        let ghost done = outline@.len() as int;
        let step = rest.remove(0);
        proof {
            assert(step == orig[done]);
            assert(orig.skip(done).remove(0) =~= orig.skip(done + 1));
            assert(orig.take(done + 1).drop_last() =~= orig.take(done));
            assert(orig.take(done + 1).last() == orig[done]);
        }
        let ComponentStep { action, component } = step;
        match action {
            ComponentAction::Update => {
                outline.push((component.name.clone(), action));
                updates.push(component);
            },
            ComponentAction::Delete => {
                outline.push((component.name.clone(), action));
                deletes.push(component);
            },
        }
    }
    proof {
        assert(orig.take(orig.len() as int) =~= orig);
        assert(outline_view(outline@) =~= spec_outline(orig));
    }
    (updates, deletes, outline)
}

/// Whether some entry of the outline schedules `name` for update.
pub fn is_update_name(outline: &Vec<(String, ComponentAction)>, name: &str) -> (r: bool)
    ensures
        r == spec_name_is_update(outline_view(outline@), name@),
{
    let ghost o = outline_view(outline@);
    let n = outline.len();
    let mut i: usize = 0;
    while i < n
        invariant
            n == outline@.len(),
            o == outline_view(outline@),
            0 <= i <= n,
            forall|j: int| 0 <= j < i ==> !((#[trigger] o[j]).1 is Update && o[j].0 == name@),
        decreases n - i,
    {
        proof {
            assert(o[i as int] == (outline@[i as int].0@, outline@[i as int].1));
        }
        if outline[i].1 == ComponentAction::Update && str_eq(outline[i].0.as_str(), name) {
            proof {
                assert(o[i as int].1 is Update && o[i as int].0 == name@);
            }
            return true;
        }
        i += 1;
    }
    false
}

/// The result owed to `name`: the UPDATE response's entry when the name is
/// scheduled for update anywhere in the step (the UPDATE side wins a
/// collision), else the DELETE response's entry.
pub open spec fn spec_required_result(
    o: Seq<(Seq<char>, ComponentAction)>,
    deletes: Seq<(String, ComponentResultSpec)>,
    updates: Seq<(String, ComponentResultSpec)>,
    name: Seq<char>,
) -> Option<ComponentResultSpec> {
    if spec_name_is_update(o, name) {
        kvlist::spec_lookup(updates, name)
    } else {
        kvlist::spec_lookup(deletes, name)
    }
}

/// Every name of the outline is owed a result by the two responses.
pub open spec fn spec_all_covered(
    o: Seq<(Seq<char>, ComponentAction)>,
    deletes: Seq<(String, ComponentResultSpec)>,
    updates: Seq<(String, ComponentResultSpec)>,
) -> bool {
    forall|i: int|
        0 <= i < o.len() ==> spec_required_result(o, deletes, updates, (#[trigger] o[i]).0) is Some
}

/// Merges the DELETE and UPDATE responses into the step's result map: one
/// entry per distinct component name, in first-occurrence order, each
/// carrying the result the responses owe that name. Returns `None` exactly
/// when some name of the step is missing from the response that owes it.
pub fn collect_results(
    outline: &Vec<(String, ComponentAction)>,
    delete_results: &ResultMap,
    update_results: &ResultMap,
) -> (r: Option<ResultMap>)
    ensures
        ({
            let o = outline_view(outline@);
            match r {
                Some(m) => {
                    &&& kvlist::unique_keys(m@)
                    &&& kvlist::spec_keys(m@) == spec_distinct_names(o)
                    &&& spec_all_covered(o, delete_results@, update_results@)
                    &&& forall|k: int|
                        0 <= k < m@.len() ==> spec_required_result(
                            o,
                            delete_results@,
                            update_results@,
                            (#[trigger] m@[k]).0@,
                        ) == Some(m@[k].1)
                },
                None => !spec_all_covered(o, delete_results@, update_results@),
            }
        }),
{
    let ghost o = outline_view(outline@);
    let ghost d = delete_results@;
    let ghost u = update_results@;
    let mut out: ResultMap = Vec::new();
    let n = outline.len();
    let mut i: usize = 0;
    proof {
        assert(kvlist::spec_keys(out@) =~= spec_distinct_names(o.take(0)));
    }
    while i < n
        invariant
            n == outline@.len(),
            o == outline_view(outline@),
            d == delete_results@,
            u == update_results@,
            0 <= i <= n,
            kvlist::unique_keys(out@),
            kvlist::spec_keys(out@) == spec_distinct_names(o.take(i as int)),
            forall|j: int|
                0 <= j < i ==> spec_required_result(o, d, u, (#[trigger] o[j]).0) is Some,
            forall|k: int|
                0 <= k < out@.len() ==> spec_required_result(o, d, u, (#[trigger] out@[k]).0@)
                    == Some(out@[k].1),
        decreases n - i,
    {
        proof {
            assert(o[i as int] == (outline@[i as int].0@, outline@[i as int].1));
            assert(o.take(i + 1).drop_last() =~= o.take(i as int));
            assert(o.take(i + 1).last() == o[i as int]);
        }
        let name = &outline[i].0;
        if kvlist::contains_key(&out, name.as_str()) {
            proof {
                kvlist::lemma_lookup_characterization(out@, name@);
                let k = choose|k: int|
                    0 <= k < out@.len() && (#[trigger] out@[k]).0@ == name@ && out@[k].1
                        == kvlist::spec_lookup(out@, name@)->Some_0;
                assert(kvlist::spec_keys(out@)[k] == name@);
                assert(spec_distinct_names(o.take(i as int)).contains(o[i as int].0));
                assert(spec_required_result(o, d, u, o[i as int].0) is Some);
            }
        } else {
            let upd = is_update_name(outline, name.as_str());
            let src = if upd {
                update_results
            } else {
                delete_results
            };
            match kvlist::lookup(src, name.as_str()) {
                Some(res) => {
                    proof {
                        kvlist::lemma_lookup_characterization(out@, name@);
                        assert(forall|k: int|
                            0 <= k < out@.len() ==> (#[trigger] out@[k]).0@ != name@);
                        assert(!spec_distinct_names(o.take(i as int)).contains(o[i as int].0))
                            by {
                            if spec_distinct_names(o.take(i as int)).contains(o[i as int].0) {
                                let k = choose|k: int|
                                    0 <= k < spec_distinct_names(o.take(i as int)).len()
                                        && spec_distinct_names(o.take(i as int))[k] == o[
                                        i as int].0;
                                assert(kvlist::spec_keys(out@)[k] == name@);
                                assert(out@[k].0@ == name@);
                            }
                        }
                    }
                    let ghost old_out = out@;
                    let entry = (name.clone(), res.clone());
                    out.push(entry);
                    proof {
                        assert(kvlist::spec_keys(out@) =~= kvlist::spec_keys(old_out).push(
                            name@,
                        ));
                        assert(kvlist::unique_keys(out@)) by {
                            assert forall|a: int, b: int| 0 <= a < b < out@.len() implies (
                            #[trigger] out@[a]).0@ != (#[trigger] out@[b]).0@ by {
                                if b == out@.len() - 1 {
                                    assert(out@[a] == old_out[a]);
                                    assert(out@[a].0@ != name@);
                                } else {
                                    assert(out@[a] == old_out[a]);
                                    assert(out@[b] == old_out[b]);
                                }
                            }
                        }
                        assert(spec_required_result(o, d, u, o[i as int].0) is Some);
                    }
                },
                None => {
                    proof {
                        assert(spec_required_result(o, d, u, o[i as int].0) is None);
                        assert(!spec_all_covered(o, d, u));
                    }
                    return None;
                },
            }
        }
        i += 1;
    }
    proof {
        assert(o.take(n as int) =~= o);
    }
    Some(out)
}

/// `idx` picks, strictly left to right, the positions of `b` that the
/// elements of `a` stand at.
pub open spec fn is_ordered_selection(a: Seq<Seq<char>>, b: Seq<Seq<char>>, idx: Seq<int>) -> bool {
    &&& idx.len() == a.len()
    &&& forall|k: int| 0 <= k < idx.len() ==> 0 <= #[trigger] idx[k] < b.len() && a[k] == b[idx[k]]
    &&& forall|k: int| 0 <= k < idx.len() - 1 ==> #[trigger] idx[k] < idx[k + 1]
}

/// The names `a` are a subset of the names `b`, in `b`'s order.
pub open spec fn preserves_order(a: Seq<Seq<char>>, b: Seq<Seq<char>>) -> bool {
    exists|idx: Seq<int>| is_ordered_selection(a, b, idx)
}

/// Projects references to the components they carry, returning the
/// components and, separately, their names.
pub fn project_references(references: Vec<ComponentStep>) -> (r: (Vec<ComponentSpec>, Vec<String>))
    ensures
        r.0@ == references@.map_values(|c: ComponentStep| c.component),
        r.1@.map_values(|s: String| s@) == spec_step_names(references@),
{
    let ghost orig = references@;
    let mut rest = references;
    let mut components: Vec<ComponentSpec> = Vec::new();
    let mut names: Vec<String> = Vec::new();
    proof {
        assert(orig.skip(0) =~= orig);
    }
    while rest.len() > 0
        invariant
            components@.len() + rest@.len() == orig.len(),
            names@.len() == components@.len(),
            rest@ == orig.skip(components@.len() as int),
            forall|j: int|
                0 <= j < components@.len() ==> (#[trigger] components@[j]) == orig[j].component,
            forall|j: int| 0 <= j < names@.len() ==> (#[trigger] names@[j])@ == orig[j].component.name@,
        decreases rest@.len(),
    {
        let ghost done = components@.len() as int;
        let step = rest.remove(0);
        proof {
            assert(step == orig[done]);
            assert(orig.skip(done).remove(0) =~= orig.skip(done + 1));
        }
        let ComponentStep { action: _, component } = step;
        names.push(component.name.clone());
        components.push(component);
    }
    proof {
        assert(components@ =~= orig.map_values(|c: ComponentStep| c.component));
        assert(names@.map_values(|s: String| s@) =~= spec_step_names(orig));
    }
    (components, names)
}

/// The position of the first component of `resp` named `name`.
pub open spec fn spec_find_name(resp: Seq<ComponentSpec>, name: Seq<char>) -> Option<int>
    decreases resp.len(),
{
    if resp.len() == 0 {
        None
    } else if resp[0].name@ == name {
        Some(0)
    } else {
        match spec_find_name(resp.drop_first(), name) {
            Some(i) => Some(i + 1),
            None => None,
        }
    }
}

/// A position below which nothing matches, and which matches if it is in
/// range, is what a find returns.
proof fn lemma_find_name_at(resp: Seq<ComponentSpec>, name: Seq<char>, j: int)
    requires
        0 <= j <= resp.len(),
        forall|k: int| 0 <= k < j ==> (#[trigger] resp[k]).name@ != name,
        j < resp.len() ==> resp[j].name@ == name,
    ensures
        spec_find_name(resp, name) == if j < resp.len() {
            Some(j)
        } else {
            Option::<int>::None
        },
    decreases j,
{
    if j == 0 {
    } else {
        assert(resp[0].name@ != name);
        let rest = resp.drop_first();
        assert forall|k: int| 0 <= k < j - 1 implies (#[trigger] rest[k]).name@ != name by {
            assert(rest[k] == resp[k + 1]);
        }
        assert(j - 1 < rest.len() ==> rest[j - 1] == resp[j]);
        lemma_find_name_at(rest, name, j - 1);
    }
}

/// What a selection keeps: for each name in order, the first remaining
/// response component carrying it, each response component used at most
/// once.
pub open spec fn spec_select(names: Seq<Seq<char>>, resp: Seq<ComponentSpec>) -> Seq<ComponentSpec>
    decreases names.len(),
{
    if names.len() == 0 {
        Seq::empty()
    } else {
        match spec_find_name(resp, names[0]) {
            Some(j) => seq![resp[j]] + spec_select(names.drop_first(), resp.remove(j)),
            None => spec_select(names.drop_first(), resp),
        }
    }
}

/// Keeps, for each name in order, the first remaining response component
/// carrying that name; response components are used at most once. The
/// names of the result are a subset of `names`, in their order.
pub fn select_by_names(names: &Vec<String>, response: Vec<ComponentSpec>) -> (out: Vec<
    ComponentSpec,
>)
    ensures
        out@ == spec_select(names@.map_values(|s: String| s@), response@),
        preserves_order(spec_component_names(out@), names@.map_values(|s: String| s@)),
{
    let ghost nview = names@.map_values(|s: String| s@);
    let ghost resp_orig = response@;
    let mut remaining = response;
    let mut out: Vec<ComponentSpec> = Vec::new();
    let ghost mut idx: Seq<int> = Seq::empty();
    let n = names.len();
    let mut i: usize = 0;
    proof {
        assert(nview.skip(0) =~= nview);
        assert(out@ + spec_select(nview.skip(0), remaining@) =~= spec_select(nview, resp_orig));
    }
    while i < n
        invariant
            n == names@.len(),
            nview == names@.map_values(|s: String| s@),
            0 <= i <= n,
            spec_select(nview, resp_orig) == out@ + spec_select(nview.skip(i as int), remaining@),
            idx.len() == out@.len(),
            forall|k: int|
                0 <= k < idx.len() ==> 0 <= #[trigger] idx[k] < i && spec_component_names(out@)[k]
                    == nview[idx[k]],
            forall|k: int| 0 <= k < idx.len() - 1 ==> #[trigger] idx[k] < idx[k + 1],
        decreases n - i,
    {
        proof {
            assert(nview.skip(i as int)[0] == nview[i as int]);
            assert(nview.skip(i as int).drop_first() =~= nview.skip(i + 1));
        }
        let m = remaining.len();
        let mut j: usize = 0;
        let mut found: Option<usize> = None;
        while j < m
            invariant_except_break
                found is None,
            invariant
                n == names@.len(),
                0 <= i < n,
                m == remaining@.len(),
                0 <= j <= m,
                forall|k: int| 0 <= k < j ==> (#[trigger] remaining@[k]).name@ != names@[i as int]@,
            ensures
                match found {
                    Some(p) => p < m && remaining@[p as int].name@ == names@[i as int]@ && forall|
                        k: int,
                    | 0 <= k < p ==> (#[trigger] remaining@[k]).name@ != names@[i as int]@,
                    None => forall|k: int|
                        0 <= k < m ==> (#[trigger] remaining@[k]).name@ != names@[i as int]@,
                },
            decreases m - j,
        {
            if str_eq(remaining[j].name.as_str(), names[i].as_str()) {
                found = Some(j);
                break ;
            }
            j += 1;
        }
        match found {
            Some(p) => {
                proof {
                    lemma_find_name_at(remaining@, nview[i as int], p as int);
                }
                let ghost old_out = out@;
                let ghost old_remaining = remaining@;
                let picked = remaining.remove(p);
                out.push(picked);
                proof {
                    assert(spec_select(nview.skip(i as int), old_remaining) =~= seq![picked]
                        + spec_select(nview.skip(i + 1), remaining@));
                    assert(out@ + spec_select(nview.skip(i + 1), remaining@) =~= old_out
                        + spec_select(nview.skip(i as int), old_remaining));
                    idx = idx.push(i as int);
                    assert(spec_component_names(out@) =~= spec_component_names(old_out).push(
                        picked.name@,
                    ));
                    assert(spec_component_names(out@)[idx.len() - 1] == nview[i as int]);
                    assert forall|k: int| 0 <= k < idx.len() - 1 implies #[trigger] idx[k] < idx[k
                        + 1] by {
                        if k == idx.len() - 2 {
                            assert(idx[k] < i as int);
                        }
                    }
                }
            },
            None => {
                proof {
                    lemma_find_name_at(remaining@, nview[i as int], remaining@.len() as int);
                    assert(spec_select(nview.skip(i as int), remaining@) == spec_select(
                        nview.skip(i + 1),
                        remaining@,
                    ));
                }
            },
        }
        i += 1;
    }
    proof {
        assert(nview.skip(n as int) =~= Seq::<Seq<char>>::empty());
        assert(out@ =~= spec_select(nview, resp_orig));
        assert(is_ordered_selection(spec_component_names(out@), nview, idx));
    }
    out
}

/// The RPC a uProtocol provider sends through: one request to a method URI
/// carrying `{ deployment, components }`, answered within the timeout.
/// `Ok(None)` is an empty response. Implementations outside the library
/// wire this to a real transport; [`RecordingTransport`] answers from
/// queues in-process.
pub trait UProtocolRpc {
    /// Invokes the GET method; the answer is a list of components.
    fn invoke_get(
        &mut self,
        method: &UUri,
        timeout_ms: u32,
        deployment: &DeploymentSpec,
        components: &Vec<ComponentSpec>,
    ) -> Result<Option<Vec<ComponentSpec>>, String>;

    /// Invokes the UPDATE or DELETE method; the answer is a result map.
    fn invoke_apply(
        &mut self,
        method: &UUri,
        timeout_ms: u32,
        deployment: &DeploymentSpec,
        components: &Vec<ComponentSpec>,
    ) -> Result<Option<ResultMap>, String>;
}

/// One request as a transport saw it.
#[derive(Debug)]
pub struct RpcRecord {
    pub method: UUri,
    pub timeout_ms: u32,
    pub component_names: Vec<String>,
}

/// The in-process transport, for tests and development: it records every
/// request and answers from response queues, or with an empty response
/// when the queue has run dry.
#[derive(Debug)]
pub struct RecordingTransport {
    pub records: Vec<RpcRecord>,
    pub get_responses: Vec<Vec<ComponentSpec>>,
    pub apply_responses: Vec<ResultMap>,
}

/// Copies the names of the components.
fn clone_names(components: &Vec<ComponentSpec>) -> (r: Vec<String>)
    ensures
        r@.map_values(|s: String| s@) == spec_component_names(components@),
{
    let mut r: Vec<String> = Vec::new();
    let n = components.len();
    let mut i: usize = 0;
    while i < n
        invariant
            n == components@.len(),
            0 <= i <= n,
            r@.len() == i,
            forall|j: int| 0 <= j < i ==> (#[trigger] r@[j])@ == components@[j].name@,
        decreases n - i,
    {
        r.push(components[i].name.clone());
        i += 1;
    }
    proof {
        assert(r@.map_values(|s: String| s@) =~= spec_component_names(components@));
    }
    r
}

impl RecordingTransport {
    /// A transport with nothing recorded and empty response queues.
    pub fn new() -> (r: Self)
        ensures
            r.records@.len() == 0,
            r.get_responses@.len() == 0,
            r.apply_responses@.len() == 0,
    {
        RecordingTransport { records: Vec::new(), get_responses: Vec::new(), apply_responses: Vec::new() }
    }
}

impl UProtocolRpc for RecordingTransport {
    /// Records the request; answers with the front of the GET queue, or an
    /// empty response when the queue is empty.
    fn invoke_get(
        &mut self,
        method: &UUri,
        timeout_ms: u32,
        deployment: &DeploymentSpec,
        components: &Vec<ComponentSpec>,
    ) -> (r: Result<Option<Vec<ComponentSpec>>, String>)
        ensures
            final(self).records@.len() == old(self).records@.len() + 1,
            final(self).records@.take(old(self).records@.len() as int) == old(self).records@,
            final(self).records@.last().method == *method,
            final(self).records@.last().timeout_ms == timeout_ms,
            final(self).records@.last().component_names@.map_values(|s: String| s@)
                == spec_component_names(components@),
            final(self).apply_responses == old(self).apply_responses,
            old(self).get_responses@.len() == 0 ==> (r matches Ok(None) && final(self).get_responses@.len() == 0),
            old(self).get_responses@.len() > 0 ==> (r matches Ok(resp) && resp == Some(
                old(self).get_responses@[0],
            ) && final(self).get_responses@ == old(self).get_responses@.drop_first()),
    {
        let record = RpcRecord {
            method: method.clone(),
            timeout_ms,
            component_names: clone_names(components),
        };
        let ghost old_records = self.records@;
        self.records.push(record);
        proof {
            assert(self.records@.take(old_records.len() as int) =~= old_records);
        }
        if self.get_responses.len() == 0 {
            Ok(None)
        } else {
            let resp = self.get_responses.remove(0);
            proof {
                assert(self.get_responses@ =~= old(self).get_responses@.drop_first());
            }
            Ok(Some(resp))
        }
    }

    /// Records the request; answers with the front of the apply queue, or
    /// an empty response when the queue is empty.
    fn invoke_apply(
        &mut self,
        method: &UUri,
        timeout_ms: u32,
        deployment: &DeploymentSpec,
        components: &Vec<ComponentSpec>,
    ) -> (r: Result<Option<ResultMap>, String>)
        ensures
            final(self).records@.len() == old(self).records@.len() + 1,
            final(self).records@.take(old(self).records@.len() as int) == old(self).records@,
            final(self).records@.last().method == *method,
            final(self).records@.last().timeout_ms == timeout_ms,
            final(self).records@.last().component_names@.map_values(|s: String| s@)
                == spec_component_names(components@),
            final(self).get_responses == old(self).get_responses,
            old(self).apply_responses@.len() == 0 ==> (r matches Ok(None) && final(self).apply_responses@.len() == 0),
            old(self).apply_responses@.len() > 0 ==> (r matches Ok(resp) && resp == Some(
                old(self).apply_responses@[0],
            ) && final(self).apply_responses@ == old(self).apply_responses@.drop_first()),
    {
        let record = RpcRecord {
            method: method.clone(),
            timeout_ms,
            component_names: clone_names(components),
        };
        let ghost old_records = self.records@;
        self.records.push(record);
        proof {
            assert(self.records@.take(old_records.len() as int) =~= old_records);
        }
        if self.apply_responses.len() == 0 {
            Ok(None)
        } else {
            let resp = self.apply_responses.remove(0);
            proof {
                assert(self.apply_responses@ =~= old(self).apply_responses@.drop_first());
            }
            Ok(Some(resp))
        }
    }
}

/// The uProtocol remote target provider: settings read from the
/// configuration, and the transport the RPCs go through.
#[derive(Debug)]
pub struct UProtocolProvider<T> {
    pub settings: ProviderSettings,
    pub transport: T,
}

impl<T: UProtocolRpc> UProtocolProvider<T> {
    /// Builds a provider from its settings and a transport.
    pub fn new(settings: ProviderSettings, transport: T) -> (r: Self)
        ensures
            r.settings == settings,
            r.transport == transport,
    {
        UProtocolProvider { settings, transport }
    }
}

impl<T: UProtocolRpc> ITargetProvider for UProtocolProvider<T> {
    /// Returns the rule captured at construction.
    fn get_validation_rule(&self) -> (r: Result<ValidationRule, String>)
        ensures
            r is Ok,
            same_rule(r->Ok_0, self.settings.validation_rule),
    {
        Ok(self.settings.validation_rule.clone())
    }

    /// Sends the references' components to the remote GET method and
    /// returns the components it answers with, filtered to the referenced
    /// names in reference order. An empty response is an error.
    fn get(&mut self, deployment: &DeploymentSpec, references: Vec<ComponentStep>) -> (r: Result<
        Vec<ComponentSpec>,
        String,
    >)
        ensures
            final(self).settings == old(self).settings,
            r is Ok ==> preserves_order(
                spec_component_names(r->Ok_0@),
                spec_step_names(references@),
            ),
    {
        let (components, names) = project_references(references);
        match self.transport.invoke_get(
            &self.settings.get_uri,
            self.settings.get_timeout,
            deployment,
            &components,
        ) {
            Err(e) => Err(e),
            Ok(None) => Err(
                String::from_str("target provider returned empty response to Get request"),
            ),
            Ok(Some(response)) => Ok(select_by_names(&names, response)),
        }
    }

    /// Reconciles one step: a dry run returns an empty map untouched;
    /// otherwise the step is split by action, DELETE is invoked before
    /// UPDATE (each skipped when its list is empty), and the responses are
    /// merged into one entry per distinct component name, the UPDATE side
    /// winning a name scheduled for both. A response that does not cover
    /// the requested names is an error.
    fn apply(&mut self, deployment: &DeploymentSpec, step: DeploymentStep, is_dry_run: bool) -> (r:
        Result<ResultMap, String>)
        ensures
            final(self).settings == old(self).settings,
            is_dry_run ==> r is Ok && r->Ok_0@.len() == 0 && *final(self) == *old(self),
            !is_dry_run ==> match r {
                Ok(m) => kvlist::unique_keys(m@) && kvlist::spec_keys(m@) == spec_distinct_names(
                    spec_outline(step.components@),
                ),
                Err(_) => true,
            },
            !is_dry_run && step.components@.len() == 0 ==> r is Ok && *final(self) == *old(self),
    {
        if is_dry_run {
            return Ok(Vec::new());
        }
        let (updates, deletes, outline) = partition_step(step.components);
        let delete_results: ResultMap = if deletes.len() == 0 {
            Vec::new()
        } else {
            match self.transport.invoke_apply(
                &self.settings.delete_uri,
                self.settings.apply_timeout,
                deployment,
                &deletes,
            ) {
                Err(e) => {
                    return Err(e);
                },
                Ok(None) => {
                    return Err(
                        String::from_str("target provider returned empty response to request"),
                    );
                },
                Ok(Some(m)) => m,
            }
        };
        let update_results: ResultMap = if updates.len() == 0 {
            Vec::new()
        } else {
            match self.transport.invoke_apply(
                &self.settings.update_uri,
                self.settings.apply_timeout,
                deployment,
                &updates,
            ) {
                Err(e) => {
                    return Err(e);
                },
                Ok(None) => {
                    return Err(
                        String::from_str("target provider returned empty response to request"),
                    );
                },
                Ok(Some(m)) => m,
            }
        };
        match collect_results(&outline, &delete_results, &update_results) {
            Some(m) => Ok(m),
            None => Err(
                String::from_str(
                    "target provider response does not cover the requested components",
                ),
            ),
        }
    }
}

} // verus!
