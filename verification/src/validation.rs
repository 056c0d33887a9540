//! Reading a custom [`ValidationRule`] out of a JSON object.
//!
//! A provider configuration may carry a `validationRule` override. The
//! reader below accepts exactly the shape the wire format prescribes —
//! every field present, with its camelCase key — and its result is pinned
//! to the object's key/value entries, so two objects carrying the same
//! properties in any order yield the same rule
//! ([`lemma_rule_parse_order_independent`]).

use vstd::prelude::*;

use crate::json::JsonValue;
use crate::kvlist::{lemma_lookup_same_entries, lookup, spec_lookup, unique_keys};
use crate::models::{ComponentValidationRule, PropertyDesc, ValidationRule};

verus! {

/// The string under `key`, if the entry holds one.
pub open spec fn str_field(entries: Seq<(String, JsonValue)>, key: Seq<char>) -> Option<Seq<char>> {
    match spec_lookup(entries, key) {
        Some(JsonValue::Str(s)) => Some(s@),
        _ => None,
    }
}

/// The boolean under `key`, if the entry holds one.
pub open spec fn bool_field(entries: Seq<(String, JsonValue)>, key: Seq<char>) -> Option<bool> {
    match spec_lookup(entries, key) {
        Some(JsonValue::Bool(b)) => Some(b),
        _ => None,
    }
}

/// The array under `key`, if the entry holds one.
pub open spec fn arr_field(entries: Seq<(String, JsonValue)>, key: Seq<char>) -> Option<
    Seq<JsonValue>,
> {
    match spec_lookup(entries, key) {
        Some(JsonValue::Arr(items)) => Some(items@),
        _ => None,
    }
}

/// The descriptor `d` reads exactly the fields of the JSON object `v`.
pub open spec fn prop_desc_matches(d: PropertyDesc, v: JsonValue) -> bool {
    match v {
        JsonValue::Obj(entries) => {
            &&& str_field(entries@, "name"@) == Some(d.name@)
            &&& bool_field(entries@, "ignoreCase"@) == Some(d.ignore_case)
            &&& bool_field(entries@, "skipIfMissing"@) == Some(d.skip_if_missing)
            &&& bool_field(entries@, "prefixMatch"@) == Some(d.prefix_match)
            &&& bool_field(entries@, "isComponentName"@) == Some(d.is_component_name)
        },
        _ => false,
    }
}

/// The JSON value has the shape of a property descriptor.
pub open spec fn prop_desc_shape_ok(v: JsonValue) -> bool {
    match v {
        JsonValue::Obj(entries) => {
            &&& str_field(entries@, "name"@) is Some
            &&& bool_field(entries@, "ignoreCase"@) is Some
            &&& bool_field(entries@, "skipIfMissing"@) is Some
            &&& bool_field(entries@, "prefixMatch"@) is Some
            &&& bool_field(entries@, "isComponentName"@) is Some
        },
        _ => false,
    }
}

/// Each descriptor reads the array element in its position.
pub open spec fn prop_descs_match(ds: Seq<PropertyDesc>, items: Seq<JsonValue>) -> bool {
    &&& ds.len() == items.len()
    &&& forall|i: int| 0 <= i < ds.len() ==> prop_desc_matches(#[trigger] ds[i], items[i])
}

/// Every array element has the shape of a property descriptor.
pub open spec fn prop_descs_shape_ok(items: Seq<JsonValue>) -> bool {
    forall|i: int| 0 <= i < items.len() ==> prop_desc_shape_ok(#[trigger] items[i])
}

/// Each string reads the array element in its position.
pub open spec fn strings_match(ss: Seq<String>, items: Seq<JsonValue>) -> bool {
    &&& ss.len() == items.len()
    &&& forall|i: int|
        0 <= i < ss.len() ==> (#[trigger] items[i]) is Str && ss[i]@ == items[i]->Str_0@
}

/// Every array element is a string.
pub open spec fn strings_shape_ok(items: Seq<JsonValue>) -> bool {
    forall|i: int| 0 <= i < items.len() ==> (#[trigger] items[i]) is Str
}

/// The component rule `r` reads exactly the fields of the JSON object `v`.
pub open spec fn component_rule_matches(r: ComponentValidationRule, v: JsonValue) -> bool {
    match v {
        JsonValue::Obj(entries) => {
            &&& str_field(entries@, "requiredType"@) == Some(r.required_component_type@)
            &&& match arr_field(entries@, "changeDetection"@) {
                Some(items) => prop_descs_match(r.change_detection_properties@, items),
                None => false,
            }
            &&& match arr_field(entries@, "changeDetectionMetadata"@) {
                Some(items) => prop_descs_match(r.change_detection_metadata@, items),
                None => false,
            }
            &&& match arr_field(entries@, "requiredProperties"@) {
                Some(items) => strings_match(r.required_properties@, items),
                None => false,
            }
            &&& match arr_field(entries@, "optionalProperties"@) {
                Some(items) => strings_match(r.optional_properties@, items),
                None => false,
            }
            &&& match arr_field(entries@, "requiredMetadata"@) {
                Some(items) => strings_match(r.required_metadata@, items),
                None => false,
            }
            &&& match arr_field(entries@, "optionalMetadata"@) {
                Some(items) => strings_match(r.optional_metadata@, items),
                None => false,
            }
        },
        _ => false,
    }
}

/// The JSON value has the shape of a component validation rule.
pub open spec fn component_rule_shape_ok(v: JsonValue) -> bool {
    match v {
        JsonValue::Obj(entries) => {
            &&& str_field(entries@, "requiredType"@) is Some
            &&& match arr_field(entries@, "changeDetection"@) {
                Some(items) => prop_descs_shape_ok(items),
                None => false,
            }
            &&& match arr_field(entries@, "changeDetectionMetadata"@) {
                Some(items) => prop_descs_shape_ok(items),
                None => false,
            }
            &&& match arr_field(entries@, "requiredProperties"@) {
                Some(items) => strings_shape_ok(items),
                None => false,
            }
            &&& match arr_field(entries@, "optionalProperties"@) {
                Some(items) => strings_shape_ok(items),
                None => false,
            }
            &&& match arr_field(entries@, "requiredMetadata"@) {
                Some(items) => strings_shape_ok(items),
                None => false,
            }
            &&& match arr_field(entries@, "optionalMetadata"@) {
                Some(items) => strings_shape_ok(items),
                None => false,
            }
        },
        _ => false,
    }
}

/// The rule `r` reads exactly the fields of the object entries `entries`.
pub open spec fn rule_obj_matches(r: ValidationRule, entries: Seq<(String, JsonValue)>) -> bool {
    &&& str_field(entries, "requiredType"@) == Some(r.required_component_type@)
    &&& match spec_lookup(entries, "componentValidationRule"@) {
        Some(v) => component_rule_matches(r.component_validation_rule, v),
        None => false,
    }
    &&& match spec_lookup(entries, "sidecarValidationRule"@) {
        Some(v) => component_rule_matches(r.sidecar_validation_rule, v),
        None => false,
    }
    &&& bool_field(entries, "allowSidecar"@) == Some(r.allow_sidecar)
    &&& bool_field(entries, "supportScopes"@) == Some(r.scope_isolation)
    &&& bool_field(entries, "instanceIsolation"@) == Some(r.instance_isolation)
}

/// The entries have the shape of a validation rule object.
pub open spec fn rule_obj_shape_ok(entries: Seq<(String, JsonValue)>) -> bool {
    &&& str_field(entries, "requiredType"@) is Some
    &&& match spec_lookup(entries, "componentValidationRule"@) {
        Some(v) => component_rule_shape_ok(v),
        None => false,
    }
    &&& match spec_lookup(entries, "sidecarValidationRule"@) {
        Some(v) => component_rule_shape_ok(v),
        None => false,
    }
    &&& bool_field(entries, "allowSidecar"@) is Some
    &&& bool_field(entries, "supportScopes"@) is Some
    &&& bool_field(entries, "instanceIsolation"@) is Some
}

/// The JSON value has the shape of a validation rule.
pub open spec fn rule_shape_ok(v: JsonValue) -> bool {
    match v {
        JsonValue::Obj(entries) => rule_obj_shape_ok(entries@),
        _ => false,
    }
}

/// Reads one property descriptor out of a JSON object. Returns `None`
/// exactly when the value does not have the descriptor shape.
pub fn parse_property_desc(v: &JsonValue) -> (r: Option<PropertyDesc>)
    ensures
        match r {
            Some(d) => prop_desc_matches(d, *v),
            None => !prop_desc_shape_ok(*v),
        },
{
    let entries = match v {
        JsonValue::Obj(entries) => entries,
        _ => {
            return None;
        },
    };
    let name = match lookup(entries, "name") {
        Some(JsonValue::Str(s)) => s.clone(),
        _ => {
            return None;
        },
    };
    let ignore_case = match lookup(entries, "ignoreCase") {
        Some(JsonValue::Bool(b)) => *b,
        _ => {
            return None;
        },
    };
    let skip_if_missing = match lookup(entries, "skipIfMissing") {
        Some(JsonValue::Bool(b)) => *b,
        _ => {
            return None;
        },
    };
    let prefix_match = match lookup(entries, "prefixMatch") {
        Some(JsonValue::Bool(b)) => *b,
        _ => {
            return None;
        },
    };
    let is_component_name = match lookup(entries, "isComponentName") {
        Some(JsonValue::Bool(b)) => *b,
        _ => {
            return None;
        },
    };
    Some(
        PropertyDesc { name, ignore_case, skip_if_missing, prefix_match, is_component_name },
    )
}

/// Reads an array of property descriptors. Returns `None` exactly when some
/// element does not have the descriptor shape.
pub fn parse_property_descs(items: &Vec<JsonValue>) -> (r: Option<Vec<PropertyDesc>>)
    ensures
        match r {
            Some(ds) => prop_descs_match(ds@, items@),
            None => !prop_descs_shape_ok(items@),
        },
{
    let mut ds: Vec<PropertyDesc> = Vec::new();
    let n = items.len();
    let mut i: usize = 0;
    while i < n
        invariant
            n == items@.len(),
            0 <= i <= n,
            ds@.len() == i,
            forall|j: int| 0 <= j < i ==> prop_desc_matches(#[trigger] ds@[j], items@[j]),
        decreases n - i,
    {
        match parse_property_desc(&items[i]) {
            Some(d) => {
                ds.push(d);
            },
            None => {
                return None;
            },
        }
        i += 1;
    }
    Some(ds)
}

/// Reads an array of strings. Returns `None` exactly when some element is
/// not a string.
pub fn parse_strings(items: &Vec<JsonValue>) -> (r: Option<Vec<String>>)
    ensures
        match r {
            Some(ss) => strings_match(ss@, items@),
            None => !strings_shape_ok(items@),
        },
{
    let mut ss: Vec<String> = Vec::new();
    let n = items.len();
    let mut i: usize = 0;
    while i < n
        invariant
            n == items@.len(),
            0 <= i <= n,
            ss@.len() == i,
            forall|j: int|
                0 <= j < i ==> (#[trigger] items@[j]) is Str && ss@[j]@ == items@[j]->Str_0@,
        decreases n - i,
    {
        match &items[i] {
            JsonValue::Str(s) => {
                ss.push(s.clone());
            },
            _ => {
                return None;
            },
        }
        i += 1;
    }
    Some(ss)
}

/// Reads one component validation rule out of a JSON object. Returns `None`
/// exactly when the value does not have the rule shape.
pub fn parse_component_rule(v: &JsonValue) -> (r: Option<ComponentValidationRule>)
    ensures
        match r {
            Some(cr) => component_rule_matches(cr, *v),
            None => !component_rule_shape_ok(*v),
        },
{
    let entries = match v {
        JsonValue::Obj(entries) => entries,
        _ => {
            return None;
        },
    };
    let required_component_type = match lookup(entries, "requiredType") {
        Some(JsonValue::Str(s)) => s.clone(),
        _ => {
            return None;
        },
    };
    let change_detection_properties = match lookup(entries, "changeDetection") {
        Some(JsonValue::Arr(items)) => match parse_property_descs(items) {
            Some(ds) => ds,
            None => {
                return None;
            },
        },
        _ => {
            return None;
        },
    };
    let change_detection_metadata = match lookup(entries, "changeDetectionMetadata") {
        Some(JsonValue::Arr(items)) => match parse_property_descs(items) {
            Some(ds) => ds,
            None => {
                return None;
            },
        },
        _ => {
            return None;
        },
    };
    let required_properties = match lookup(entries, "requiredProperties") {
        Some(JsonValue::Arr(items)) => match parse_strings(items) {
            Some(ss) => ss,
            None => {
                return None;
            },
        },
        _ => {
            return None;
        },
    };
    let optional_properties = match lookup(entries, "optionalProperties") {
        Some(JsonValue::Arr(items)) => match parse_strings(items) {
            Some(ss) => ss,
            None => {
                return None;
            },
        },
        _ => {
            return None;
        },
    };
    let required_metadata = match lookup(entries, "requiredMetadata") {
        Some(JsonValue::Arr(items)) => match parse_strings(items) {
            Some(ss) => ss,
            None => {
                return None;
            },
        },
        _ => {
            return None;
        },
    };
    let optional_metadata = match lookup(entries, "optionalMetadata") {
        Some(JsonValue::Arr(items)) => match parse_strings(items) {
            Some(ss) => ss,
            None => {
                return None;
            },
        },
        _ => {
            return None;
        },
    };
    Some(
        ComponentValidationRule {
            required_component_type,
            change_detection_properties,
            change_detection_metadata,
            required_properties,
            optional_properties,
            required_metadata,
            optional_metadata,
        },
    )
}

/// Reads a validation rule out of a JSON value. Returns `None` exactly when
/// the value does not have the rule shape: every field of the rule and of
/// its two nested component rules must be present with the right type.
pub fn parse_validation_rule(v: &JsonValue) -> (r: Option<ValidationRule>)
    ensures
        match r {
            Some(rule) => match *v {
                JsonValue::Obj(entries) => rule_obj_matches(rule, entries@),
                _ => false,
            },
            None => !rule_shape_ok(*v),
        },
{
    let entries = match v {
        JsonValue::Obj(entries) => entries,
        _ => {
            return None;
        },
    };
    let required_component_type = match lookup(entries, "requiredType") {
        Some(JsonValue::Str(s)) => s.clone(),
        _ => {
            return None;
        },
    };
    let component_validation_rule = match lookup(entries, "componentValidationRule") {
        Some(sub) => match parse_component_rule(sub) {
            Some(cr) => cr,
            None => {
                return None;
            },
        },
        None => {
            return None;
        },
    };
    let sidecar_validation_rule = match lookup(entries, "sidecarValidationRule") {
        Some(sub) => match parse_component_rule(sub) {
            Some(cr) => cr,
            None => {
                return None;
            },
        },
        None => {
            return None;
        },
    };
    let allow_sidecar = match lookup(entries, "allowSidecar") {
        Some(JsonValue::Bool(b)) => *b,
        _ => {
            return None;
        },
    };
    let scope_isolation = match lookup(entries, "supportScopes") {
        Some(JsonValue::Bool(b)) => *b,
        _ => {
            return None;
        },
    };
    let instance_isolation = match lookup(entries, "instanceIsolation") {
        Some(JsonValue::Bool(b)) => *b,
        _ => {
            return None;
        },
    };
    Some(
        ValidationRule {
            required_component_type,
            component_validation_rule,
            sidecar_validation_rule,
            allow_sidecar,
            scope_isolation,
            instance_isolation,
        },
    )
}

/// A component rule that reads a JSON value witnesses its shape.
pub proof fn lemma_component_matches_implies_shape(cr: ComponentValidationRule, v: JsonValue)
    requires
        component_rule_matches(cr, v),
    ensures
        component_rule_shape_ok(v),
{
    let entries = v->Obj_0@;
    let cd = arr_field(entries, "changeDetection"@)->Some_0;
    assert forall|i: int| 0 <= i < cd.len() implies prop_desc_shape_ok(#[trigger] cd[i]) by {
        assert(prop_desc_matches(cr.change_detection_properties@[i], cd[i]));
    }
    let cdm = arr_field(entries, "changeDetectionMetadata"@)->Some_0;
    assert forall|i: int| 0 <= i < cdm.len() implies prop_desc_shape_ok(#[trigger] cdm[i]) by {
        assert(prop_desc_matches(cr.change_detection_metadata@[i], cdm[i]));
    }
}

/// A rule that reads object entries witnesses their shape.
pub proof fn lemma_rule_matches_implies_shape(
    rule: ValidationRule,
    entries: Seq<(String, JsonValue)>,
)
    requires
        rule_obj_matches(rule, entries),
    ensures
        rule_obj_shape_ok(entries),
{
    let cv = spec_lookup(entries, "componentValidationRule"@)->Some_0;
    lemma_component_matches_implies_shape(rule.component_validation_rule, cv);
    let sv = spec_lookup(entries, "sidecarValidationRule"@)->Some_0;
    lemma_component_matches_implies_shape(rule.sidecar_validation_rule, sv);
}

/// Two descriptors reading the same fields agree.
pub open spec fn prop_desc_like(a: PropertyDesc, b: PropertyDesc) -> bool {
    &&& a.name@ == b.name@
    &&& a.ignore_case == b.ignore_case
    &&& a.skip_if_missing == b.skip_if_missing
    &&& a.prefix_match == b.prefix_match
    &&& a.is_component_name == b.is_component_name
}

/// Two component rules agree, lists compared element-wise by contents.
pub open spec fn component_rule_like(a: ComponentValidationRule, b: ComponentValidationRule) -> bool {
    &&& a.required_component_type@ == b.required_component_type@
    &&& a.change_detection_properties@.len() == b.change_detection_properties@.len()
    &&& forall|i: int|
        0 <= i < a.change_detection_properties@.len() ==> prop_desc_like(
            #[trigger] a.change_detection_properties@[i],
            b.change_detection_properties@[i],
        )
    &&& a.change_detection_metadata@.len() == b.change_detection_metadata@.len()
    &&& forall|i: int|
        0 <= i < a.change_detection_metadata@.len() ==> prop_desc_like(
            #[trigger] a.change_detection_metadata@[i],
            b.change_detection_metadata@[i],
        )
    &&& strings_like(a.required_properties@, b.required_properties@)
    &&& strings_like(a.optional_properties@, b.optional_properties@)
    &&& strings_like(a.required_metadata@, b.required_metadata@)
    &&& strings_like(a.optional_metadata@, b.optional_metadata@)
}

/// Two string lists agree element-wise by contents.
pub open spec fn strings_like(a: Seq<String>, b: Seq<String>) -> bool {
    &&& a.len() == b.len()
    &&& forall|i: int| 0 <= i < a.len() ==> (#[trigger] a[i])@ == b[i]@
}

/// Two validation rules agree, field by field.
pub open spec fn rule_like(a: ValidationRule, b: ValidationRule) -> bool {
    &&& a.required_component_type@ == b.required_component_type@
    &&& component_rule_like(a.component_validation_rule, b.component_validation_rule)
    &&& component_rule_like(a.sidecar_validation_rule, b.sidecar_validation_rule)
    &&& a.allow_sidecar == b.allow_sidecar
    &&& a.scope_isolation == b.scope_isolation
    &&& a.instance_isolation == b.instance_isolation
}

/// Two component rules read off the same JSON value agree.
pub proof fn lemma_component_rule_functional(
    a: ComponentValidationRule,
    b: ComponentValidationRule,
    v: JsonValue,
)
    requires
        component_rule_matches(a, v),
        component_rule_matches(b, v),
    ensures
        component_rule_like(a, b),
{
    let entries = v->Obj_0@;
    let cd = arr_field(entries, "changeDetection"@)->Some_0;
    assert forall|i: int| 0 <= i < a.change_detection_properties@.len() implies prop_desc_like(
        #[trigger] a.change_detection_properties@[i],
        b.change_detection_properties@[i],
    ) by {
        assert(prop_desc_matches(a.change_detection_properties@[i], cd[i]));
        assert(prop_desc_matches(b.change_detection_properties@[i], cd[i]));
    }
    let cdm = arr_field(entries, "changeDetectionMetadata"@)->Some_0;
    assert forall|i: int| 0 <= i < a.change_detection_metadata@.len() implies prop_desc_like(
        #[trigger] a.change_detection_metadata@[i],
        b.change_detection_metadata@[i],
    ) by {
        assert(prop_desc_matches(a.change_detection_metadata@[i], cdm[i]));
        assert(prop_desc_matches(b.change_detection_metadata@[i], cdm[i]));
    }
    let rp = arr_field(entries, "requiredProperties"@)->Some_0;
    assert forall|i: int| 0 <= i < a.required_properties@.len() implies (
    #[trigger] a.required_properties@[i])@ == b.required_properties@[i]@ by {
        assert(rp[i] is Str);
        assert(a.required_properties@[i]@ == rp[i]->Str_0@);
        assert(b.required_properties@[i]@ == rp[i]->Str_0@);
    }
    let op = arr_field(entries, "optionalProperties"@)->Some_0;
    assert forall|i: int| 0 <= i < a.optional_properties@.len() implies (
    #[trigger] a.optional_properties@[i])@ == b.optional_properties@[i]@ by {
        assert(op[i] is Str);
        assert(a.optional_properties@[i]@ == op[i]->Str_0@);
        assert(b.optional_properties@[i]@ == op[i]->Str_0@);
    }
    let rm = arr_field(entries, "requiredMetadata"@)->Some_0;
    assert forall|i: int| 0 <= i < a.required_metadata@.len() implies (
    #[trigger] a.required_metadata@[i])@ == b.required_metadata@[i]@ by {
        assert(rm[i] is Str);
        assert(a.required_metadata@[i]@ == rm[i]->Str_0@);
        assert(b.required_metadata@[i]@ == rm[i]->Str_0@);
    }
    let om = arr_field(entries, "optionalMetadata"@)->Some_0;
    assert forall|i: int| 0 <= i < a.optional_metadata@.len() implies (
    #[trigger] a.optional_metadata@[i])@ == b.optional_metadata@[i]@ by {
        assert(om[i] is Str);
        assert(a.optional_metadata@[i]@ == om[i]->Str_0@);
        assert(b.optional_metadata@[i]@ == om[i]->Str_0@);
    }
}

/// Reading a validation rule does not depend on the order of the object's
/// properties: two objects holding the same entries, each with unique keys,
/// yield agreeing rules.
pub proof fn lemma_rule_parse_order_independent(
    r1: ValidationRule,
    r2: ValidationRule,
    e1: Seq<(String, JsonValue)>,
    e2: Seq<(String, JsonValue)>,
)
    requires
        unique_keys(e1),
        unique_keys(e2),
        e1.to_multiset() == e2.to_multiset(),
        rule_obj_matches(r1, e1),
        rule_obj_matches(r2, e2),
    ensures
        rule_like(r1, r2),
{
    lemma_lookup_same_entries(e1, e2, "requiredType"@);
    lemma_lookup_same_entries(e1, e2, "componentValidationRule"@);
    lemma_lookup_same_entries(e1, e2, "sidecarValidationRule"@);
    lemma_lookup_same_entries(e1, e2, "allowSidecar"@);
    lemma_lookup_same_entries(e1, e2, "supportScopes"@);
    lemma_lookup_same_entries(e1, e2, "instanceIsolation"@);
    let cv = spec_lookup(e1, "componentValidationRule"@)->Some_0;
    lemma_component_rule_functional(r1.component_validation_rule, r2.component_validation_rule, cv);
    let sv = spec_lookup(e1, "sidecarValidationRule"@)->Some_0;
    lemma_component_rule_functional(r1.sidecar_validation_rule, r2.sidecar_validation_rule, sv);
}

} // verus!
