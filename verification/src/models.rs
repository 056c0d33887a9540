//! The serializable data model shared by the plugin host and the providers.
//!
//! All entities are plain value types; maps are association lists of
//! `(String, value)` entries (see [`crate::kvlist`]) and free-form values are
//! [`JsonValue`]. On the wire these travel as camelCase JSON; the code that
//! serializes and deserializes them lives outside the library.

use vstd::prelude::*;

use crate::json::JsonValue;
use crate::state::State;

verus! {

/// A provider configuration: an opaque JSON value interpreted per provider.
pub type ProviderConfig = JsonValue;

/// A map from names to strings.
pub type StringMap = Vec<(String, String)>;

/// A map from names to free-form JSON values.
pub type PropertyMap = Vec<(String, JsonValue)>;

/// How one property of a component takes part in change detection.
#[derive(Debug)]
pub struct PropertyDesc {
    pub name: String,
    pub ignore_case: bool,
    pub skip_if_missing: bool,
    pub prefix_match: bool,
    pub is_component_name: bool,
}

impl Clone for PropertyDesc {
    /// Copies the descriptor; the copy equals the original.
    fn clone(&self) -> (r: Self)
        ensures
            r == *self,
    {
        PropertyDesc {
            name: self.name.clone(),
            ignore_case: self.ignore_case,
            skip_if_missing: self.skip_if_missing,
            prefix_match: self.prefix_match,
            is_component_name: self.is_component_name,
        }
    }
}

/// What a provider accepts of a component or sidecar.
#[derive(Debug)]
pub struct ComponentValidationRule {
    pub required_component_type: String,
    pub change_detection_properties: Vec<PropertyDesc>,
    pub change_detection_metadata: Vec<PropertyDesc>,
    pub required_properties: Vec<String>,
    pub optional_properties: Vec<String>,
    pub required_metadata: Vec<String>,
    pub optional_metadata: Vec<String>,
}

/// The contract a provider publishes describing which component shapes it
/// accepts.
#[derive(Debug)]
pub struct ValidationRule {
    pub required_component_type: String,
    pub component_validation_rule: ComponentValidationRule,
    pub sidecar_validation_rule: ComponentValidationRule,
    pub allow_sidecar: bool,
    pub scope_isolation: bool,
    pub instance_isolation: bool,
}

/// Field-wise agreement of two component validation rules. Lists are
/// compared by contents, so two separately built rules can agree.
pub open spec fn same_component_rule(a: ComponentValidationRule, b: ComponentValidationRule) -> bool {
    &&& a.required_component_type == b.required_component_type
    &&& a.change_detection_properties@ == b.change_detection_properties@
    &&& a.change_detection_metadata@ == b.change_detection_metadata@
    &&& a.required_properties@ == b.required_properties@
    &&& a.optional_properties@ == b.optional_properties@
    &&& a.required_metadata@ == b.required_metadata@
    &&& a.optional_metadata@ == b.optional_metadata@
}

/// Field-wise agreement of two validation rules.
pub open spec fn same_rule(a: ValidationRule, b: ValidationRule) -> bool {
    &&& a.required_component_type == b.required_component_type
    &&& same_component_rule(a.component_validation_rule, b.component_validation_rule)
    &&& same_component_rule(a.sidecar_validation_rule, b.sidecar_validation_rule)
    &&& a.allow_sidecar == b.allow_sidecar
    &&& a.scope_isolation == b.scope_isolation
    &&& a.instance_isolation == b.instance_isolation
}

/// An empty component validation rule: no required type, no change
/// detection, no property or metadata lists.
pub open spec fn is_empty_component_rule(r: ComponentValidationRule) -> bool {
    &&& r.required_component_type@ == Seq::<char>::empty()
    &&& r.change_detection_properties@.len() == 0
    &&& r.change_detection_metadata@.len() == 0
    &&& r.required_properties@.len() == 0
    &&& r.optional_properties@.len() == 0
    &&& r.required_metadata@.len() == 0
    &&& r.optional_metadata@.len() == 0
}

/// The default validation rule: it accepts anything. Change detection holds
/// the single wildcard descriptor `{ name: "*", ignoreCase, skipIfMissing }`,
/// sidecars are allowed, scopes and instance isolation are supported.
pub open spec fn is_default_rule(r: ValidationRule) -> bool {
    &&& r.required_component_type@ == Seq::<char>::empty()
    &&& r.component_validation_rule.required_component_type@ == Seq::<char>::empty()
    &&& r.component_validation_rule.change_detection_properties@.len() == 1
    &&& r.component_validation_rule.change_detection_properties@[0].name@ == "*"@
    &&& r.component_validation_rule.change_detection_properties@[0].ignore_case == true
    &&& r.component_validation_rule.change_detection_properties@[0].skip_if_missing == true
    &&& r.component_validation_rule.change_detection_properties@[0].prefix_match == false
    &&& r.component_validation_rule.change_detection_properties@[0].is_component_name == false
    &&& r.component_validation_rule.change_detection_metadata@.len() == 0
    &&& r.component_validation_rule.required_properties@.len() == 0
    &&& r.component_validation_rule.optional_properties@.len() == 0
    &&& r.component_validation_rule.required_metadata@.len() == 0
    &&& r.component_validation_rule.optional_metadata@.len() == 0
    &&& is_empty_component_rule(r.sidecar_validation_rule)
    &&& r.allow_sidecar == true
    &&& r.scope_isolation == true
    &&& r.instance_isolation == true
}

impl ValidationRule {
    /// Builds the default validation rule.
    pub fn new() -> (r: Self)
        ensures
            is_default_rule(r),
    {
        let wildcard = PropertyDesc {
            name: String::from_str("*"),
            ignore_case: true,
            skip_if_missing: true,
            prefix_match: false,
            is_component_name: false,
        };
        let mut change_detection: Vec<PropertyDesc> = Vec::new();
        change_detection.push(wildcard);
        ValidationRule {
            required_component_type: String::new(),
            component_validation_rule: ComponentValidationRule {
                required_component_type: String::new(),
                change_detection_properties: change_detection,
                change_detection_metadata: Vec::new(),
                required_properties: Vec::new(),
                optional_properties: Vec::new(),
                required_metadata: Vec::new(),
                optional_metadata: Vec::new(),
            },
            sidecar_validation_rule: ComponentValidationRule {
                required_component_type: String::new(),
                change_detection_properties: Vec::new(),
                change_detection_metadata: Vec::new(),
                required_properties: Vec::new(),
                optional_properties: Vec::new(),
                required_metadata: Vec::new(),
                optional_metadata: Vec::new(),
            },
            allow_sidecar: true,
            scope_isolation: true,
            instance_isolation: true,
        }
    }
}

/// Copies a vector of strings; the copy reads the same.
pub fn clone_strings(v: &Vec<String>) -> (r: Vec<String>)
    ensures
        r@ == v@,
{
    let mut r: Vec<String> = Vec::new();
    let n = v.len();
    let mut i: usize = 0;
    while i < n
        invariant
            n == v@.len(),
            0 <= i <= n,
            r@ == v@.take(i as int),
        decreases n - i,
    {
        r.push(v[i].clone());
        proof {
            assert(v@.take(i + 1).drop_last() =~= v@.take(i as int));
            assert(v@.take(i + 1) =~= r@);
        }
        i += 1;
    }
    proof {
        assert(v@.take(n as int) =~= v@);
    }
    r
}

/// Copies a vector of property descriptors; the copy holds the same
/// descriptors.
pub fn clone_property_descs(v: &Vec<PropertyDesc>) -> (r: Vec<PropertyDesc>)
    ensures
        r@ == v@,
{
    let mut r: Vec<PropertyDesc> = Vec::new();
    let n = v.len();
    let mut i: usize = 0;
    while i < n
        invariant
            n == v@.len(),
            0 <= i <= n,
            r@ == v@.take(i as int),
        decreases n - i,
    {
        r.push(v[i].clone());
        proof {
            assert(v@.take(i + 1).drop_last() =~= v@.take(i as int));
            assert(v@.take(i + 1) =~= r@);
        }
        i += 1;
    }
    proof {
        assert(v@.take(n as int) =~= v@);
    }
    r
}

impl Clone for ComponentValidationRule {
    /// Copies the rule; the copy agrees with the original field by field.
    fn clone(&self) -> (r: Self)
        ensures
            same_component_rule(r, *self),
    {
        ComponentValidationRule {
            required_component_type: self.required_component_type.clone(),
            change_detection_properties: clone_property_descs(&self.change_detection_properties),
            change_detection_metadata: clone_property_descs(&self.change_detection_metadata),
            required_properties: clone_strings(&self.required_properties),
            optional_properties: clone_strings(&self.optional_properties),
            required_metadata: clone_strings(&self.required_metadata),
            optional_metadata: clone_strings(&self.optional_metadata),
        }
    }
}

impl Clone for ValidationRule {
    /// Copies the rule; the copy agrees with the original field by field.
    fn clone(&self) -> (r: Self)
        ensures
            same_rule(r, *self),
    {
        ValidationRule {
            required_component_type: self.required_component_type.clone(),
            component_validation_rule: self.component_validation_rule.clone(),
            sidecar_validation_rule: self.sidecar_validation_rule.clone(),
            allow_sidecar: self.allow_sidecar,
            scope_isolation: self.scope_isolation,
            instance_isolation: self.instance_isolation,
        }
    }
}

/// A traffic filter on a route.
#[derive(Debug)]
pub struct FilterSpec {
    pub direction: String,
    pub filter_type: String,
    pub parameters: Option<StringMap>,
}

/// A route exposed or consumed by a component.
#[derive(Debug)]
pub struct RouteSpec {
    pub route: String,
    pub route_type: String,
    pub properties: Option<StringMap>,
    pub filters: Option<Vec<FilterSpec>>,
}

/// A sidecar attached to a component.
#[derive(Debug)]
pub struct SidecarSpec {
    pub name: Option<String>,
    pub sidecar_type: Option<String>,
    pub properties: Option<PropertyMap>,
}

/// A declaratively named unit of workload. `name` is the stable identity
/// key; everything else describes how the unit is to be realized.
#[derive(Debug)]
pub struct ComponentSpec {
    pub name: String,
    pub component_type: Option<String>,
    pub metadata: Option<StringMap>,
    pub properties: Option<PropertyMap>,
    pub parameters: Option<StringMap>,
    pub routes: Option<Vec<RouteSpec>>,
    pub constraints: Option<String>,
    pub dependencies: Option<Vec<String>>,
    pub skills: Option<Vec<String>>,
    pub sidecars: Option<Vec<SidecarSpec>>,
}

/// What is to happen to a component within a deployment step.
#[derive(Clone, Copy, PartialEq, Eq, Structural, Debug)]
pub enum ComponentAction {
    Update,
    Delete,
}

/// One `(action, component)` pair of a deployment step.
#[derive(Debug)]
pub struct ComponentStep {
    pub action: ComponentAction,
    pub component: ComponentSpec,
}

/// One atomic unit of reconciliation: components to update or delete, plus
/// context. A step may carry zero components.
#[derive(Debug)]
pub struct DeploymentStep {
    pub target: Option<String>,
    pub components: Vec<ComponentStep>,
    pub role: String,
    pub is_first: bool,
}

/// Object metadata carried by solutions, instances and targets.
#[derive(Debug)]
pub struct ObjectMeta {
    pub namespace: Option<String>,
    pub name: Option<String>,
    pub generation: Option<String>,
    pub labels: Option<StringMap>,
    pub annotations: Option<StringMap>,
}

impl ObjectMeta {
    /// Builds metadata with nothing set.
    pub fn empty() -> (r: Self)
        ensures
            r.namespace is None,
            r.name is None,
            r.generation is None,
            r.labels is None,
            r.annotations is None,
    {
        ObjectMeta { namespace: None, name: None, generation: None, labels: None, annotations: None }
    }
}

/// The desired shape of a solution.
#[derive(Debug)]
pub struct SolutionSpec {
    pub display_name: Option<String>,
    pub metadata: Option<StringMap>,
    pub components: Option<Vec<ComponentSpec>>,
    pub version: Option<String>,
    pub root_resource: Option<String>,
}

/// A solution object: metadata plus its optional spec.
#[derive(Debug)]
pub struct SolutionState {
    pub metadata: ObjectMeta,
    pub spec: Option<SolutionSpec>,
}

/// Selects the target an instance is bound to.
#[derive(Debug)]
pub struct TargetSelector {
    pub name: Option<String>,
    pub selector: Option<StringMap>,
}

/// A binding of a role to a provider with its configuration.
#[derive(Debug)]
pub struct BindingSpec {
    pub role: String,
    pub provider: String,
    pub config: Option<StringMap>,
}

/// A topology: which device, selected how, bound to which providers.
#[derive(Debug)]
pub struct TopologySpec {
    pub device: Option<String>,
    pub selector: Option<StringMap>,
    pub bindings: Option<Vec<BindingSpec>>,
}

/// A pipeline run as part of an instance.
#[derive(Debug)]
pub struct PipelineSpec {
    pub name: String,
    pub skill: String,
    pub parameters: Option<StringMap>,
}

/// The desired shape of an instance.
#[derive(Debug)]
pub struct InstanceSpec {
    pub display_name: Option<String>,
    pub scope: Option<String>,
    pub parameters: Option<StringMap>,
    pub metadata: Option<StringMap>,
    pub solution: String,
    pub target: Option<TargetSelector>,
    pub topologies: Option<Vec<TopologySpec>>,
    pub pipelines: Option<Vec<PipelineSpec>>,
}

/// Status of an instance; carries no fields.
#[derive(Debug)]
pub struct InstanceStatus {
}

/// An instance object: metadata, optional spec, status.
#[derive(Debug)]
pub struct InstanceState {
    pub metadata: ObjectMeta,
    pub spec: Option<InstanceSpec>,
    pub status: InstanceStatus,
}

/// The desired shape of a target.
#[derive(Debug)]
pub struct TargetSpec {
    pub display_name: Option<String>,
    pub scope: Option<String>,
    pub metadata: Option<StringMap>,
    pub properties: Option<StringMap>,
    pub components: Option<Vec<ComponentSpec>>,
    pub constraints: Option<String>,
    pub topologies: Option<Vec<TopologySpec>>,
    pub force_redeploy: Option<bool>,
}

/// Status of a target; carries no fields.
#[derive(Debug)]
pub struct TargetStatus {
}

/// A target object: metadata, status, optional spec.
#[derive(Debug)]
pub struct TargetState {
    pub metadata: ObjectMeta,
    pub status: TargetStatus,
    pub spec: Option<TargetSpec>,
}

/// A device attached to a target.
#[derive(Debug)]
pub struct DeviceSpec {
    pub display_name: Option<String>,
    pub properties: Option<StringMap>,
    pub bindings: Option<Vec<BindingSpec>>,
}

/// Full context for one reconciliation: the solution, the instance, and the
/// targets it spans. Providers that do not need topology pass it through.
#[derive(Debug)]
pub struct DeploymentSpec {
    pub solution_name: String,
    pub solution: SolutionState,
    pub instance: InstanceState,
    pub targets: Vec<(String, TargetState)>,
    pub devices: Option<Vec<DeviceSpec>>,
    pub assignments: Option<StringMap>,
    pub component_start_index: Option<i32>,
    pub component_end_index: Option<i32>,
    pub active_target: Option<String>,
    pub generation: Option<String>,
    pub object_namespace: Option<String>,
    pub hash: Option<String>,
}

impl DeploymentSpec {
    /// Builds an empty deployment: no solution contents, no instance spec,
    /// no targets.
    pub fn empty() -> (r: Self)
        ensures
            r.solution_name@ == Seq::<char>::empty(),
            r.solution.spec is None,
            r.instance.spec is None,
            r.targets@.len() == 0,
            r.devices is None,
            r.assignments is None,
            r.active_target is None,
    {
        DeploymentSpec {
            solution_name: String::new(),
            solution: SolutionState { metadata: ObjectMeta::empty(), spec: None },
            instance: InstanceState {
                metadata: ObjectMeta::empty(),
                spec: None,
                status: InstanceStatus {},
            },
            targets: Vec::new(),
            devices: None,
            assignments: None,
            component_start_index: None,
            component_end_index: None,
            active_target: None,
            generation: None,
            object_namespace: None,
            hash: None,
        }
    }
}

/// The per-component outcome of an `apply`.
#[derive(Debug)]
pub struct ComponentResultSpec {
    pub status: State,
    pub message: String,
}

impl Clone for ComponentResultSpec {
    /// Copies the result; the copy equals the original.
    fn clone(&self) -> (r: Self)
        ensures
            r == *self,
    {
        ComponentResultSpec { status: self.status, message: self.message.clone() }
    }
}

/// The result of an `apply`: one entry per component name.
pub type ResultMap = Vec<(String, ComponentResultSpec)>;

/// The component names of a sequence of component steps, in step order.
pub open spec fn spec_step_names(components: Seq<ComponentStep>) -> Seq<Seq<char>> {
    components.map_values(|c: ComponentStep| c.component.name@)
}

/// The component names of a sequence of component specs, in order.
pub open spec fn spec_component_names(components: Seq<ComponentSpec>) -> Seq<Seq<char>> {
    components.map_values(|c: ComponentSpec| c.name@)
}

/// What a step says per component, reduced to name and action.
pub open spec fn spec_outline(components: Seq<ComponentStep>) -> Seq<(Seq<char>, ComponentAction)> {
    components.map_values(|c: ComponentStep| (c.component.name@, c.action))
}

/// The outline a vector of `(name, action)` pairs denotes.
pub open spec fn outline_view(o: Seq<(String, ComponentAction)>) -> Seq<(Seq<char>, ComponentAction)> {
    o.map_values(|e: (String, ComponentAction)| (e.0@, e.1))
}

/// The names of an outline, in order.
pub open spec fn spec_outline_names(o: Seq<(Seq<char>, ComponentAction)>) -> Seq<Seq<char>> {
    o.map_values(|e: (Seq<char>, ComponentAction)| e.0)
}

/// The outline's names with duplicates dropped, keeping each name at its
/// first occurrence.
pub open spec fn spec_distinct_names(o: Seq<(Seq<char>, ComponentAction)>) -> Seq<Seq<char>>
    decreases o.len(),
{
    if o.len() == 0 {
        Seq::empty()
    } else {
        let rest = spec_distinct_names(o.drop_last());
        if rest.contains(o.last().0) {
            rest
        } else {
            rest.push(o.last().0)
        }
    }
}

/// Some entry of the outline schedules `name` for update.
pub open spec fn spec_name_is_update(
    o: Seq<(Seq<char>, ComponentAction)>,
    name: Seq<char>,
) -> bool {
    exists|i: int| 0 <= i < o.len() && (#[trigger] o[i]).1 is Update && o[i].0 == name
}

/// The distinct names cover exactly the outline's names: as sets the two
/// are the same, so a map keyed by the distinct names has one entry per
/// named component.
pub proof fn lemma_distinct_names_set(o: Seq<(Seq<char>, ComponentAction)>)
    ensures
        spec_distinct_names(o).to_set() == spec_outline_names(o).to_set(),
    decreases o.len(),
{
    if o.len() == 0 {
        assert(spec_distinct_names(o).to_set() =~= spec_outline_names(o).to_set());
    } else {
        let rest = o.drop_last();
        let last = o.last().0;
        lemma_distinct_names_set(rest);
        let no = spec_outline_names(o);
        let nr = spec_outline_names(rest);
        let dof = spec_distinct_names(o);
        let dr = spec_distinct_names(rest);
        assert(no =~= nr.push(last));
        assert forall|x: Seq<char>| #[trigger] dof.contains(x) implies no.contains(x) by {
            if dr.contains(x) {
                assert(dr.to_set().contains(x));
                assert(nr.contains(x));
                let i = choose|i: int| 0 <= i < nr.len() && nr[i] == x;
                assert(no[i] == x);
            } else {
                assert(x == last);
                assert(no[no.len() - 1] == x);
            }
        }
        assert forall|x: Seq<char>| #[trigger] no.contains(x) implies dof.contains(x) by {
            let i = choose|i: int| 0 <= i < no.len() && no[i] == x;
            if i < no.len() - 1 {
                assert(nr[i] == x);
                assert(nr.contains(x));
                assert(nr.to_set().contains(x));
                assert(dr.contains(x));
                let j = choose|j: int| 0 <= j < dr.len() && dr[j] == x;
                if dr.contains(last) {
                    assert(dof[j] == x);
                } else {
                    assert(dof == dr.push(last));
                    assert(dof[j] == x);
                }
            } else {
                assert(x == last);
                if dr.contains(last) {
                    let j = choose|j: int| 0 <= j < dr.len() && dr[j] == last;
                    assert(dof[j] == x);
                } else {
                    assert(dof == dr.push(last));
                    assert(dof[dof.len() - 1] == x);
                }
            }
        }
        assert(dof.to_set() =~= no.to_set());
    }
}

} // verus!
