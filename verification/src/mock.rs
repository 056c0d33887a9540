//! The mock target provider: a reference implementation for tests.
//!
//! It talks to nothing. `get` answers with one fixed example component,
//! `apply` reports success for every component of the step, and the
//! published validation rule is the default one.

use vstd::prelude::*;

use crate::json::JsonValue;
use crate::kvlist;
use crate::models::{
    is_default_rule, spec_distinct_names, spec_outline, ComponentResultSpec, ComponentSpec,
    ComponentStep, DeploymentSpec, DeploymentStep, ResultMap, RouteSpec, SidecarSpec,
    ValidationRule,
};
use crate::provider::ITargetProvider;
use crate::state::State;

verus! {

/// The provider that stands in for a real target in tests.
#[derive(Debug)]
pub struct MockProvider {
}

impl MockProvider {
    /// Builds the mock provider.
    pub fn new() -> (r: Self) {
        MockProvider {  }
    }
}

/// The message reported for a successfully applied component.
pub open spec fn spec_applied_message(name: Seq<char>) -> Seq<char> {
    "Component "@ + name + " applied successfully"@
}

impl ITargetProvider for MockProvider {
    /// Publishes the default validation rule.
    fn get_validation_rule(&self) -> (r: Result<ValidationRule, String>)
        ensures
            r is Ok,
            is_default_rule(r->Ok_0),
    {
        Ok(ValidationRule::new())
    }

    /// Answers with one fixed example component, whatever is referenced.
    fn get(&mut self, deployment: &DeploymentSpec, references: Vec<ComponentStep>) -> (r: Result<
        Vec<ComponentSpec>,
        String,
    >)
        ensures
            r is Ok,
            r->Ok_0@.len() == 1,
            r->Ok_0@[0].name@ == "example_component"@,
            r->Ok_0@[0].component_type matches Some(t) && t@ == "example_type"@,
            r->Ok_0@[0].constraints matches Some(c) && c@ == "example_constraint"@,
    {
        let mut metadata: Vec<(String, String)> = Vec::new();
        metadata.push(
            (String::from_str("example_metadata_key"), String::from_str("example_metadata_value")),
        );
        let mut properties: Vec<(String, JsonValue)> = Vec::new();
        properties.push(
            (
                String::from_str("example_property_key"),
                JsonValue::Str(String::from_str("example_property_value")),
            ),
        );
        let mut parameters: Vec<(String, String)> = Vec::new();
        parameters.push(
            (
                String::from_str("example_parameter_key"),
                String::from_str("example_parameter_value"),
            ),
        );
        let mut route_properties: Vec<(String, String)> = Vec::new();
        route_properties.push(
            (
                String::from_str("example_route_property_key"),
                String::from_str("example_route_property_value"),
            ),
        );
        let mut routes: Vec<RouteSpec> = Vec::new();
        routes.push(
            RouteSpec {
                route: String::from_str("example_route"),
                route_type: String::from_str("example_type"),
                properties: Some(route_properties),
                filters: Some(Vec::new()),
            },
        );
        let mut sidecar_properties: Vec<(String, JsonValue)> = Vec::new();
        sidecar_properties.push(
            (
                String::from_str("example_sidecar_property_key"),
                JsonValue::Str(String::from_str("example_sidecar_property_value")),
            ),
        );
        let mut sidecars: Vec<SidecarSpec> = Vec::new();
        sidecars.push(
            SidecarSpec {
                name: Some(String::from_str("example_sidecar")),
                sidecar_type: Some(String::from_str("example_type")),
                properties: Some(sidecar_properties),
            },
        );
        let component = ComponentSpec {
            name: String::from_str("example_component"),
            component_type: Some(String::from_str("example_type")),
            metadata: Some(metadata),
            properties: Some(properties),
            parameters: Some(parameters),
            routes: Some(routes),
            constraints: Some(String::from_str("example_constraint")),
            dependencies: Some(Vec::new()),
            skills: Some(Vec::new()),
            sidecars: Some(sidecars),
        };
        let mut result: Vec<ComponentSpec> = Vec::new();
        result.push(component);
        Ok(result)
    }

    /// Reports success for every component: one entry per distinct name,
    /// status `OK`, message naming the component. A dry run does nothing
    /// and returns the empty map.
    fn apply(&mut self, deployment: &DeploymentSpec, step: DeploymentStep, is_dry_run: bool) -> (r:
        Result<ResultMap, String>)
        ensures
            is_dry_run ==> r is Ok && r->Ok_0@.len() == 0,
            !is_dry_run ==> r is Ok && {
                let m = r->Ok_0;
                &&& kvlist::unique_keys(m@)
                &&& kvlist::spec_keys(m@) == spec_distinct_names(spec_outline(step.components@))
                &&& forall|k: int|
                    0 <= k < m@.len() ==> (#[trigger] m@[k]).1.status == State::OK && m@[k].1.message@
                        == spec_applied_message(m@[k].0@)
            },
    {
        if is_dry_run {
            return Ok(Vec::new());
        }
        let ghost o = spec_outline(step.components@);
        let components = &step.components;
        let mut out: ResultMap = Vec::new();
        let n = components.len();
        let mut i: usize = 0;
        proof {
            assert(kvlist::spec_keys(out@) =~= spec_distinct_names(o.take(0)));
        }
        while i < n
            invariant
                n == components@.len(),
                o == spec_outline(components@),
                0 <= i <= n,
                kvlist::unique_keys(out@),
                kvlist::spec_keys(out@) == spec_distinct_names(o.take(i as int)),
                forall|k: int|
                    0 <= k < out@.len() ==> (#[trigger] out@[k]).1.status == State::OK
                        && out@[k].1.message@ == spec_applied_message(out@[k].0@),
            decreases n - i,
        {
            proof {
                assert(o[i as int] == (components@[i as int].component.name@, components@[
                i as int].action));
                assert(o.take(i + 1).drop_last() =~= o.take(i as int));
                assert(o.take(i + 1).last() == o[i as int]);
            }
            let name = &components[i].component.name;
            if kvlist::contains_key(&out, name.as_str()) {
                proof {
                    kvlist::lemma_lookup_characterization(out@, name@);
                    let k = choose|k: int|
                        0 <= k < out@.len() && (#[trigger] out@[k]).0@ == name@ && out@[k].1
                            == kvlist::spec_lookup(out@, name@)->Some_0;
                    assert(kvlist::spec_keys(out@)[k] == name@);
                    assert(spec_distinct_names(o.take(i as int)).contains(o[i as int].0));
                }
            } else {
                proof {
                    kvlist::lemma_lookup_characterization(out@, name@);
                    assert(forall|k: int|
                        0 <= k < out@.len() ==> (#[trigger] out@[k]).0@ != name@);
                    assert(!spec_distinct_names(o.take(i as int)).contains(o[i as int].0)) by {
                        if spec_distinct_names(o.take(i as int)).contains(o[i as int].0) {
                            let k = choose|k: int|
                                0 <= k < spec_distinct_names(o.take(i as int)).len()
                                    && spec_distinct_names(o.take(i as int))[k] == o[i as int].0;
                            assert(kvlist::spec_keys(out@)[k] == name@);
                            assert(out@[k].0@ == name@);
                        }
                    }
                }
                let ghost old_out = out@;
                let message = String::from_str("Component ").concat(name.as_str()).concat(
                    " applied successfully",
                );
                let result = ComponentResultSpec { status: State::OK, message };
                out.push((name.clone(), result));
                proof {
                    assert(kvlist::spec_keys(out@) =~= kvlist::spec_keys(old_out).push(name@));
                    assert(kvlist::unique_keys(out@)) by {
                        assert forall|a: int, b: int| 0 <= a < b < out@.len() implies (
                        #[trigger] out@[a]).0@ != (#[trigger] out@[b]).0@ by {
                            if b == out@.len() - 1 {
                                assert(out@[a] == old_out[a]);
                                assert(out@[a].0@ != name@);
                            } else {
                                assert(out@[a] == old_out[a]);
                                assert(out@[b] == old_out[b]);
                            }
                        }
                    }
                }
            }
            i += 1;
        }
        proof {
            assert(o.take(n as int) =~= o);
        }
        Ok(out)
    }
}

} // verus!
