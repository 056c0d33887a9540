//! The Ankaios local target provider.
//!
//! The provider maps the reconcile contract onto a local workload
//! orchestrator. `get` enriches the referenced components with the fields
//! of the workloads the orchestrator knows — components without a matching
//! workload are omitted — and `apply` deletes or applies one workload per
//! component, reporting a per-component outcome instead of failing the
//! call. The orchestrator itself stands behind the [`WorkloadOrchestrator`]
//! trait; [`InMemoryOrchestrator`] is the in-process implementation used
//! for tests and development.

use vstd::prelude::*;

use crate::json::JsonValue;
use crate::kvlist;
use crate::models::{
    is_default_rule, outline_view, spec_component_names, spec_distinct_names, spec_outline,
    spec_step_names, ComponentAction, ComponentResultSpec, ComponentSpec, ComponentStep,
    DeploymentSpec, DeploymentStep, ResultMap, ValidationRule,
};
use crate::provider::ITargetProvider;
use crate::state::State;
use crate::uprotocol::{is_ordered_selection, preserves_order};

verus! {

/// The fields of a workload as the orchestrator reports them; a field the
/// orchestrator does not report stays `None`.
#[derive(Debug)]
pub struct WorkloadFields {
    pub agent: Option<String>,
    pub runtime: Option<String>,
    pub restart_policy: Option<String>,
    pub runtime_config: Option<String>,
}

impl Clone for WorkloadFields {
    /// Copies the fields; the copy equals the original.
    fn clone(&self) -> (r: Self)
        ensures
            r == *self,
    {
        WorkloadFields {
            agent: match &self.agent {
                Some(s) => Some(s.clone()),
                None => None,
            },
            runtime: match &self.runtime {
                Some(s) => Some(s.clone()),
                None => None,
            },
            restart_policy: match &self.restart_policy {
                Some(s) => Some(s.clone()),
                None => None,
            },
            runtime_config: match &self.runtime_config {
                Some(s) => Some(s.clone()),
                None => None,
            },
        }
    }
}

/// What one workload is to run as, read from a component's properties with
/// the defaults of this provider.
#[derive(Debug)]
pub struct WorkloadSettings {
    pub name: String,
    pub agent: String,
    pub runtime: String,
    pub restart_policy: String,
    pub runtime_config: String,
}

/// One call to make on the orchestrator.
#[derive(Debug)]
pub enum WorkloadOp {
    /// Delete the workload of this name.
    Delete(String),
    /// Create or update a workload.
    Apply(WorkloadSettings),
}

/// How one orchestrator call went; `detail` explains a failure.
#[derive(Debug)]
pub struct OpOutcome {
    pub ok: bool,
    pub detail: String,
}

/// The string stored in a component's properties under `key`, if any.
pub open spec fn spec_component_prop(c: ComponentSpec, key: Seq<char>) -> Option<Seq<char>> {
    match c.properties {
        Some(props) => match kvlist::spec_lookup(props@, key) {
            Some(JsonValue::Str(s)) => Some(s@),
            _ => None,
        },
        None => None,
    }
}

/// The property under `key`, or `default` when it is absent or no string.
pub open spec fn spec_prop_or(c: ComponentSpec, key: Seq<char>, default: Seq<char>) -> Seq<char> {
    match spec_component_prop(c, key) {
        Some(s) => s,
        None => default,
    }
}

/// The settings read exactly the component: its name, and the four
/// `ankaios.*` properties with the provider's defaults.
pub open spec fn workload_settings_match(w: WorkloadSettings, c: ComponentSpec) -> bool {
    &&& w.name@ == c.name@
    &&& w.agent@ == spec_prop_or(c, "ankaios.agent"@, "agent_A"@)
    &&& w.runtime@ == spec_prop_or(c, "ankaios.runtime"@, "podman"@)
    &&& w.restart_policy@ == spec_prop_or(c, "ankaios.restartPolicy"@, "NEVER"@)
    &&& w.runtime_config@ == spec_prop_or(c, "ankaios.runtimeConfig"@, ""@)
}

/// Reads a string property, falling back to a default.
fn prop_or(c: &ComponentSpec, key: &str, default: &str) -> (r: String)
    ensures
        r@ == spec_prop_or(*c, key@, default@),
{
    match &c.properties {
        Some(props) => match kvlist::lookup(props, key) {
            Some(JsonValue::Str(s)) => s.clone(),
            _ => String::from_str(default),
        },
        None => String::from_str(default),
    }
}

/// Builds the workload a component is to run as: name from the component,
/// `agent_A`, `podman`, `NEVER` and an empty runtime configuration unless
/// the matching `ankaios.*` property says otherwise.
pub fn build_workload(c: &ComponentSpec) -> (w: WorkloadSettings)
    ensures
        workload_settings_match(w, *c),
{
    WorkloadSettings {
        name: c.name.clone(),
        agent: prop_or(c, "ankaios.agent", "agent_A"),
        runtime: prop_or(c, "ankaios.runtime", "podman"),
        restart_policy: prop_or(c, "ankaios.restartPolicy", "NEVER"),
        runtime_config: prop_or(c, "ankaios.runtimeConfig", ""),
    }
}

/// The op owed to one component step: delete its workload, or apply the
/// workload built from it.
pub open spec fn op_matches(op: WorkloadOp, c: ComponentStep) -> bool {
    match c.action {
        ComponentAction::Delete => match op {
            WorkloadOp::Delete(n) => n@ == c.component.name@,
            _ => false,
        },
        ComponentAction::Update => match op {
            WorkloadOp::Apply(w) => workload_settings_match(w, c.component),
            _ => false,
        },
    }
}

/// Plans the orchestrator calls of one step: one op per component, a
/// deletion for `Delete` and an apply of the built workload for `Update`,
/// in step order.
pub fn plan_workload_ops(components: &Vec<ComponentStep>) -> (ops: Vec<WorkloadOp>)
    ensures
        ops@.len() == components@.len(),
        forall|i: int| 0 <= i < ops@.len() ==> op_matches(#[trigger] ops@[i], components@[i]),
{
    let mut ops: Vec<WorkloadOp> = Vec::new();
    let n = components.len();
    let mut i: usize = 0;
    while i < n
        invariant
            n == components@.len(),
            0 <= i <= n,
            ops@.len() == i,
            forall|j: int| 0 <= j < i ==> op_matches(#[trigger] ops@[j], components@[j]),
        decreases n - i,
    {
        let c = &components[i];
        match c.action {
            ComponentAction::Delete => {
                ops.push(WorkloadOp::Delete(c.component.name.clone()));
            },
            ComponentAction::Update => {
                ops.push(WorkloadOp::Apply(build_workload(&c.component)));
            },
        }
        i += 1;
    }
    ops
}

/// The step's outline of `(name, action)` pairs, read off by copying.
pub fn step_outline(components: &Vec<ComponentStep>) -> (r: Vec<(String, ComponentAction)>)
    ensures
        outline_view(r@) == spec_outline(components@),
{
    let mut r: Vec<(String, ComponentAction)> = Vec::new();
    let n = components.len();
    let mut i: usize = 0;
    while i < n
        invariant
            n == components@.len(),
            0 <= i <= n,
            r@.len() == i,
            forall|j: int|
                0 <= j < i ==> (#[trigger] r@[j]).0@ == components@[j].component.name@ && r@[j].1
                    == components@[j].action,
        decreases n - i,
    {
        r.push((components[i].component.name.clone(), components[i].action));
        i += 1;
    }
    proof {
        assert(outline_view(r@) =~= spec_outline(components@));
    }
    r
}

/// The position of the last outline entry carrying `name`, or `-1`.
pub open spec fn spec_last_index_of(
    o: Seq<(Seq<char>, ComponentAction)>,
    name: Seq<char>,
) -> int
    decreases o.len(),
{
    if o.len() == 0 {
        -1
    } else if o.last().0 == name {
        o.len() - 1
    } else {
        spec_last_index_of(o.drop_last(), name)
    }
}

/// The result reported for one workload operation: success is `OK` with a
/// fixed message, failure is `InternalError` with the detail appended.
pub open spec fn spec_workload_result(action: ComponentAction, ok: bool, detail: Seq<char>) -> (
    State,
    Seq<char>,
) {
    match action {
        ComponentAction::Delete => if ok {
            (State::OK, "Component deleted successfully"@)
        } else {
            (State::InternalError, "Failed to delete workload: "@ + detail)
        },
        ComponentAction::Update => if ok {
            (State::OK, "Component applied successfully"@)
        } else {
            (State::InternalError, "Failed to apply workload: "@ + detail)
        },
    }
}

/// The entry carries the result of the last operation on its name.
pub open spec fn workload_entry_ok(
    o: Seq<(Seq<char>, ComponentAction)>,
    outcomes: Seq<OpOutcome>,
    entry: (String, ComponentResultSpec),
) -> bool {
    let li = spec_last_index_of(o, entry.0@);
    &&& 0 <= li < o.len()
    &&& li < outcomes.len()
    &&& entry.1.status == spec_workload_result(o[li].1, outcomes[li].ok, outcomes[li].detail@).0
    &&& entry.1.message@ == spec_workload_result(o[li].1, outcomes[li].ok, outcomes[li].detail@).1
}

/// Builds the result entry of one operation.
fn workload_result(action: ComponentAction, outcome: &OpOutcome) -> (r: ComponentResultSpec)
    ensures
        r.status == spec_workload_result(action, outcome.ok, outcome.detail@).0,
        r.message@ == spec_workload_result(action, outcome.ok, outcome.detail@).1,
{
    match action {
        ComponentAction::Delete => if outcome.ok {
            ComponentResultSpec {
                status: State::OK,
                message: String::from_str("Component deleted successfully"),
            }
        } else {
            ComponentResultSpec {
                status: State::InternalError,
                message: String::from_str("Failed to delete workload: ").concat(
                    outcome.detail.as_str(),
                ),
            }
        },
        ComponentAction::Update => if outcome.ok {
            ComponentResultSpec {
                status: State::OK,
                message: String::from_str("Component applied successfully"),
            }
        } else {
            ComponentResultSpec {
                status: State::InternalError,
                message: String::from_str("Failed to apply workload: ").concat(
                    outcome.detail.as_str(),
                ),
            }
        },
    }
}

/// Merges the per-operation outcomes into the step's result map: one entry
/// per distinct component name, in first-occurrence order; a name stepped
/// on more than once carries the outcome of its last operation.
pub fn collect_workload_results(
    outline: &Vec<(String, ComponentAction)>,
    outcomes: &Vec<OpOutcome>,
) -> (r: ResultMap)
    requires
        outline@.len() == outcomes@.len(),
    ensures
        kvlist::unique_keys(r@),
        kvlist::spec_keys(r@) == spec_distinct_names(outline_view(outline@)),
        forall|k: int|
            0 <= k < r@.len() ==> workload_entry_ok(
                outline_view(outline@),
                outcomes@,
                #[trigger] r@[k],
            ),
{
    let ghost o = outline_view(outline@);
    let mut out: ResultMap = Vec::new();
    let n = outline.len();
    let mut i: usize = 0;
    proof {
        assert(kvlist::spec_keys(out@) =~= spec_distinct_names(o.take(0)));
    }
    while i < n
        invariant
            n == outline@.len(),
            n == outcomes@.len(),
            o == outline_view(outline@),
            0 <= i <= n,
            kvlist::unique_keys(out@),
            kvlist::spec_keys(out@) == spec_distinct_names(o.take(i as int)),
            forall|k: int|
                0 <= k < out@.len() ==> workload_entry_ok(
                    o.take(i as int),
                    outcomes@,
                    #[trigger] out@[k],
                ),
        decreases n - i,
    {
        proof {
            assert(o[i as int] == (outline@[i as int].0@, outline@[i as int].1));
            assert(o.take(i + 1).drop_last() =~= o.take(i as int));
            assert(o.take(i + 1).last() == o[i as int]);
        }
        let name = &outline[i].0;
        let rv = workload_result(outline[i].1, &outcomes[i]);
        match kvlist::find_key_index(&out, name.as_str()) {
            Some(p) => {
                let ghost old_out = out@;
                let entry = out.remove(p);
                out.insert(p, (entry.0, rv));
                proof {
                    assert(out@ =~= old_out.update(p as int, (entry.0, (out@[p as int].1))));
                    assert(kvlist::spec_keys(out@) =~= kvlist::spec_keys(old_out));
                    assert(spec_distinct_names(o.take(i as int)).contains(o[i as int].0)) by {
                        assert(kvlist::spec_keys(old_out)[p as int] == name@);
                    }
                    assert forall|k: int| 0 <= k < out@.len() implies workload_entry_ok(
                        o.take(i + 1),
                        outcomes@,
                        #[trigger] out@[k],
                    ) by {
                        if k == p {
                            assert(out@[k].0@ == name@);
                            assert(spec_last_index_of(o.take(i + 1), name@) == i);
                        } else {
                            assert(out@[k] == old_out[k]);
                            assert(out@[k].0@ != name@);
                            assert(spec_last_index_of(o.take(i + 1), out@[k].0@)
                                == spec_last_index_of(o.take(i as int), out@[k].0@));
                        }
                    }
                }
            },
            None => {
                let ghost old_out = out@;
                out.push((name.clone(), rv));
                proof {
                    assert(kvlist::spec_keys(out@) =~= kvlist::spec_keys(old_out).push(name@));
                    assert(!spec_distinct_names(o.take(i as int)).contains(o[i as int].0)) by {
                        if spec_distinct_names(o.take(i as int)).contains(o[i as int].0) {
                            let k = choose|k: int|
                                0 <= k < spec_distinct_names(o.take(i as int)).len()
                                    && spec_distinct_names(o.take(i as int))[k] == o[i as int].0;
                            assert(kvlist::spec_keys(old_out)[k] == name@);
                            assert(old_out[k].0@ == name@);
                        }
                    }
                    assert(kvlist::unique_keys(out@)) by {
                        assert forall|a: int, b: int| 0 <= a < b < out@.len() implies (
                        #[trigger] out@[a]).0@ != (#[trigger] out@[b]).0@ by {
                            if b == out@.len() - 1 {
                                assert(out@[a] == old_out[a]);
                                assert(out@[a].0@ != name@);
                            } else {
                                assert(out@[a] == old_out[a]);
                                assert(out@[b] == old_out[b]);
                            }
                        }
                    }
                    assert forall|k: int| 0 <= k < out@.len() implies workload_entry_ok(
                        o.take(i + 1),
                        outcomes@,
                        #[trigger] out@[k],
                    ) by {
                        if k == out@.len() - 1 {
                            assert(out@[k].0@ == name@);
                            assert(spec_last_index_of(o.take(i + 1), name@) == i);
                        } else {
                            assert(out@[k] == old_out[k]);
                            assert(out@[k].0@ != name@);
                            assert(spec_last_index_of(o.take(i + 1), out@[k].0@)
                                == spec_last_index_of(o.take(i as int), out@[k].0@));
                        }
                    }
                }
            },
        }
        i += 1;
    }
    proof {
        assert(o.take(n as int) =~= o);
    }
    out
}

/// Stores `value` under `key` at the front of the properties when it is
/// present: lookups then find it, and every other key reads as before.
fn put_front_if(props: &mut Vec<(String, JsonValue)>, key: &str, value: &Option<String>)
    ensures
        match value {
            Some(s) => match kvlist::spec_lookup(final(props)@, key@) {
                Some(JsonValue::Str(t)) => t@ == s@,
                _ => false,
            },
            None => final(props)@ == old(props)@,
        },
        forall|k: Seq<char>|
            k != key@ ==> kvlist::spec_lookup(final(props)@, k) == kvlist::spec_lookup(
                old(props)@,
                k,
            ),
{
    match value {
        Some(s) => {
            let entry = (String::from_str(key), JsonValue::Str(s.clone()));
            props.insert(0, entry);
            proof {
                assert(props@.drop_first() =~= old(props)@);
                assert(props@[0].0@ == key@);
                assert forall|k: Seq<char>| k != key@ implies kvlist::spec_lookup(props@, k)
                    == kvlist::spec_lookup(old(props)@, k) by {
                    assert(props@.drop_first() =~= old(props)@);
                }
            }
        },
        None => {
        },
    }
}

/// The names of the references whose component has a workload in `state`,
/// in reference order.
pub open spec fn spec_kept_names(
    refs: Seq<ComponentStep>,
    state: Seq<(String, WorkloadFields)>,
) -> Seq<Seq<char>>
    decreases refs.len(),
{
    if refs.len() == 0 {
        Seq::empty()
    } else {
        let rest = spec_kept_names(refs.drop_last(), state);
        if kvlist::spec_lookup(state, refs.last().component.name@) is Some {
            rest.push(refs.last().component.name@)
        } else {
            rest
        }
    }
}

/// The component carries, for every field its workload reports, the
/// matching `ankaios.*` property with the workload's value.
pub open spec fn enriched_ok(c: ComponentSpec, state: Seq<(String, WorkloadFields)>) -> bool {
    match kvlist::spec_lookup(state, c.name@) {
        Some(w) => {
            &&& (w.agent matches Some(a) ==> spec_component_prop(c, "ankaios.agent"@) == Some(a@))
            &&& (w.runtime matches Some(a) ==> spec_component_prop(c, "ankaios.runtime"@) == Some(
                a@,
            ))
            &&& (w.restart_policy matches Some(a) ==> spec_component_prop(
                c,
                "ankaios.restartPolicy"@,
            ) == Some(a@))
            &&& (w.runtime_config matches Some(a) ==> spec_component_prop(
                c,
                "ankaios.runtimeConfig"@,
            ) == Some(a@))
        },
        None => false,
    }
}

/// Enriches the referenced components with the fields of their workloads:
/// a component without a workload in `state` is omitted, the others keep
/// their place and gain the `ankaios.*` properties their workload reports.
pub fn enrich_references(
    references: Vec<ComponentStep>,
    state: &Vec<(String, WorkloadFields)>,
) -> (out: Vec<ComponentSpec>)
    ensures
        spec_component_names(out@) == spec_kept_names(references@, state@),
        forall|k: int| 0 <= k < out@.len() ==> enriched_ok(#[trigger] out@[k], state@),
        preserves_order(spec_component_names(out@), spec_step_names(references@)),
{
    let ghost orig = references@;
    let mut rest = references;
    let mut out: Vec<ComponentSpec> = Vec::new();
    let ghost mut idx: Seq<int> = Seq::empty();
    let ghost mut i: int = 0;
    proof {
        assert(orig.skip(0) =~= orig);
        assert(spec_component_names(out@) =~= spec_kept_names(orig.take(0), state@));
    }
    while rest.len() > 0
        invariant
            i + rest@.len() == orig.len(),
            0 <= i <= orig.len(),
            rest@ == orig.skip(i),
            spec_component_names(out@) == spec_kept_names(orig.take(i), state@),
            forall|k: int| 0 <= k < out@.len() ==> enriched_ok(#[trigger] out@[k], state@),
            idx.len() == out@.len(),
            forall|k: int|
                0 <= k < idx.len() ==> 0 <= #[trigger] idx[k] < i && spec_component_names(out@)[k]
                    == spec_step_names(orig)[idx[k]],
            forall|k: int| 0 <= k < idx.len() - 1 ==> #[trigger] idx[k] < idx[k + 1],
        decreases rest@.len(),
    {
        let ghost done = i;
        let step = rest.remove(0);
        proof {
            assert(step == orig[done]);
            assert(orig.skip(done).remove(0) =~= orig.skip(done + 1));
            assert(orig.take(done + 1).drop_last() =~= orig.take(done));
            assert(orig.take(done + 1).last() == orig[done]);
        }
        let ComponentStep { action: _, component } = step;
        let mut c = component;
        match kvlist::lookup(state, c.name.as_str()) {
            Some(w) => {
                let mut props: Vec<(String, JsonValue)> = match c.properties {
                    Some(p) => p,
                    None => Vec::new(),
                };
                proof {
                    broadcast use vstd::string::group_string_axioms;

                    reveal_strlit("ankaios.agent");
                    reveal_strlit("ankaios.runtime");
                    reveal_strlit("ankaios.restartPolicy");
                    reveal_strlit("ankaios.runtimeConfig");
                    assert(("ankaios.agent"@).len() == 13);
                    assert(("ankaios.runtime"@).len() == 15);
                    assert(("ankaios.restartPolicy"@).len() == 21);
                    assert(("ankaios.runtimeConfig"@).len() == 21);
                    assert(("ankaios.restartPolicy"@)[9] != ("ankaios.runtimeConfig"@)[9]);
                    assert("ankaios.agent"@ != "ankaios.runtime"@);
                    assert("ankaios.agent"@ != "ankaios.restartPolicy"@);
                    assert("ankaios.agent"@ != "ankaios.runtimeConfig"@);
                    assert("ankaios.runtime"@ != "ankaios.restartPolicy"@);
                    assert("ankaios.runtime"@ != "ankaios.runtimeConfig"@);
                    assert("ankaios.restartPolicy"@ != "ankaios.runtimeConfig"@);
                }
                put_front_if(&mut props, "ankaios.agent", &w.agent);
                put_front_if(&mut props, "ankaios.runtime", &w.runtime);
                put_front_if(&mut props, "ankaios.restartPolicy", &w.restart_policy);
                put_front_if(&mut props, "ankaios.runtimeConfig", &w.runtime_config);
                c.properties = Some(props);
                let ghost old_out = out@;
                out.push(c);
                proof {
                    idx = idx.push(done);
                    assert(spec_component_names(out@) =~= spec_component_names(old_out).push(
                        out@.last().name@,
                    ));
                    assert(enriched_ok(out@.last(), state@));
                    assert(spec_step_names(orig)[done] == orig[done].component.name@);
                    assert forall|k: int| 0 <= k < idx.len() - 1 implies #[trigger] idx[k] < idx[k
                        + 1] by {
                        if k == idx.len() - 2 {
                            assert(idx[k] < done);
                        }
                    }
                }
            },
            None => {
            },
        }
        proof {
            i = i + 1;
        }
    }
    proof {
        assert(orig.take(orig.len() as int) =~= orig);
        assert(is_ordered_selection(spec_component_names(out@), spec_step_names(orig), idx));
    }
    out
}

/// The workload orchestrator an Ankaios provider drives: it reports the
/// workloads it runs and executes one operation at a time. The real
/// orchestrator lives outside the library; [`InMemoryOrchestrator`] is the
/// in-process implementation used for tests and development.
pub trait WorkloadOrchestrator {
    /// The workloads the orchestrator runs, each with its fields.
    fn get_workload_state(&mut self) -> Result<Vec<(String, WorkloadFields)>, String>;

    /// Executes one operation and reports how it went.
    fn run_op(&mut self, op: &WorkloadOp) -> OpOutcome;
}

/// An orchestrator holding its workloads in memory, for tests and
/// development.
#[derive(Debug)]
pub struct InMemoryOrchestrator {
    pub workloads: Vec<(String, WorkloadFields)>,
}

impl InMemoryOrchestrator {
    /// An orchestrator running no workloads.
    pub fn new() -> (r: Self)
        ensures
            r.workloads@.len() == 0,
    {
        InMemoryOrchestrator { workloads: Vec::new() }
    }
}

impl WorkloadOrchestrator for InMemoryOrchestrator {
    /// Reports a copy of the workload table.
    fn get_workload_state(&mut self) -> (r: Result<Vec<(String, WorkloadFields)>, String>)
        ensures
            *final(self) == *old(self),
            r matches Ok(state) && state@ == old(self).workloads@,
    {
        let mut copy: Vec<(String, WorkloadFields)> = Vec::new();
        let n = self.workloads.len();
        let mut i: usize = 0;
        while i < n
            invariant
                n == self.workloads@.len(),
                0 <= i <= n,
                copy@ == self.workloads@.take(i as int),
            decreases n - i,
        {
            let entry = (self.workloads[i].0.clone(), self.workloads[i].1.clone());
            copy.push(entry);
            proof {
                assert(self.workloads@.take(i + 1).drop_last() =~= self.workloads@.take(i as int));
                assert(copy@ =~= self.workloads@.take(i + 1));
            }
            i += 1;
        }
        proof {
            assert(self.workloads@.take(n as int) =~= self.workloads@);
        }
        Ok(copy)
    }

    /// Applies the operation to the table: a deletion drops the workload
    /// if it is there, an apply stores the workload's settings under its
    /// name. Both succeed.
    fn run_op(&mut self, op: &WorkloadOp) -> (r: OpOutcome)
        ensures
            r.ok == true,
    {
        match op {
            WorkloadOp::Delete(name) => {
                match kvlist::find_key_index(&self.workloads, name.as_str()) {
                    Some(p) => {
                        self.workloads.remove(p);
                    },
                    None => {
                    },
                }
            },
            WorkloadOp::Apply(w) => {
                let fields = WorkloadFields {
                    agent: Some(w.agent.clone()),
                    runtime: Some(w.runtime.clone()),
                    restart_policy: Some(w.restart_policy.clone()),
                    runtime_config: Some(w.runtime_config.clone()),
                };
                match kvlist::find_key_index(&self.workloads, w.name.as_str()) {
                    Some(p) => {
                        self.workloads.remove(p);
                        self.workloads.insert(p, (w.name.clone(), fields));
                    },
                    None => {
                        self.workloads.push((w.name.clone(), fields));
                    },
                }
            },
        }
        OpOutcome { ok: true, detail: String::new() }
    }
}

/// The Ankaios target provider: the orchestrator it drives, and the
/// default validation rule it publishes (configured rules are not honored
/// here).
#[derive(Debug)]
pub struct AnkaiosProvider<A> {
    pub orchestrator: A,
    pub validation_rule: ValidationRule,
}

impl<A: WorkloadOrchestrator> AnkaiosProvider<A> {
    /// Builds a provider over an orchestrator, with the default rule.
    pub fn new(orchestrator: A) -> (r: Self)
        ensures
            r.orchestrator == orchestrator,
            is_default_rule(r.validation_rule),
    {
        AnkaiosProvider { orchestrator, validation_rule: ValidationRule::new() }
    }
}

impl<A: WorkloadOrchestrator> ITargetProvider for AnkaiosProvider<A> {
    /// Publishes the default validation rule.
    fn get_validation_rule(&self) -> (r: Result<ValidationRule, String>)
        ensures
            r is Ok,
            crate::models::same_rule(r->Ok_0, self.validation_rule),
    {
        Ok(self.validation_rule.clone())
    }

    /// Asks the orchestrator for its workloads and enriches the referenced
    /// components with their fields; components without a workload are
    /// omitted, the rest keep reference order.
    fn get(&mut self, deployment: &DeploymentSpec, references: Vec<ComponentStep>) -> (r: Result<
        Vec<ComponentSpec>,
        String,
    >)
        ensures
            r is Ok ==> preserves_order(
                spec_component_names(r->Ok_0@),
                spec_step_names(references@),
            ),
    {
        match self.orchestrator.get_workload_state() {
            Ok(state) => Ok(enrich_references(references, &state)),
            Err(e) => Err(e),
        }
    }

    /// Runs one operation per component — deletions and applications in
    /// step order — and reports a per-component outcome; an operation
    /// failure lands in the result map, not in an outer error. A dry run
    /// does nothing and returns the empty map.
    fn apply(&mut self, deployment: &DeploymentSpec, step: DeploymentStep, is_dry_run: bool) -> (r:
        Result<ResultMap, String>)
        ensures
            is_dry_run ==> r is Ok && r->Ok_0@.len() == 0 && *final(self) == *old(self),
            r is Ok,
            !is_dry_run ==> {
                let m = r->Ok_0;
                &&& kvlist::unique_keys(m@)
                &&& kvlist::spec_keys(m@) == spec_distinct_names(spec_outline(step.components@))
            },
    {
        if is_dry_run {
            return Ok(Vec::new());
        }
        let outline = step_outline(&step.components);
        let ops = plan_workload_ops(&step.components);
        let mut outcomes: Vec<OpOutcome> = Vec::new();
        let n = ops.len();
        let mut i: usize = 0;
        while i < n
            invariant
                n == ops@.len(),
                0 <= i <= n,
                outcomes@.len() == i,
            decreases n - i,
        {
            let outcome = self.orchestrator.run_op(&ops[i]);
            outcomes.push(outcome);
            i += 1;
        }
        proof {
            assert(outline_view(outline@).len() == outline@.len());
            assert(spec_outline(step.components@).len() == step.components@.len());
        }
        Ok(collect_workload_results(&outline, &outcomes))
    }
}

} // verus!
