//! The rules that a schema level is held to once all its fields are read.
//!
//! A key that belongs to another type than the declared one is reported and
//! the compilation goes on; a `required` list that does not match the
//! properties, a root without a name and a root named `key` stop it.

use crate::diagnostics::{Diagnostic, DiagnosticKind, Located, Provenance};
use crate::models::{
    lemma_schema_view, JsonSchema, JsonSchemaKeywords, JsonSchemaTypes, SchemaModel,
};
use crate::text::str_eq;
use vstd::prelude::*;

verus! {

/// Where a field came from, if it is set.
pub open spec fn provenance_of<T>(field: Option<Located<T>>) -> Option<Provenance> {
    match field {
        Some(located) => Some(located.at),
        None => None,
    }
}

/// Whether every property is named in `required`.
pub open spec fn all_required(
    properties: Seq<(Seq<char>, SchemaModel)>,
    required: Seq<Seq<char>>,
) -> bool {
    forall|i: int| 0 <= i < properties.len() ==> required.contains((#[trigger] properties[i]).0)
}

/// The fault, if any, in how `required` and `properties` of a level fit
/// together: they must be equally long, and every property must be required.
pub open spec fn required_fault(node: SchemaModel) -> Option<Diagnostic> {
    match (node.properties, node.required) {
        (Some(properties), Some(required)) => if required.value.len() != properties.value.len() {
            Some(Diagnostic::at(DiagnosticKind::RequiredCountMismatch, required.at.value))
        } else if !all_required(properties.value, required.value) {
            Some(Diagnostic::at(DiagnosticKind::RequiredMembershipMismatch, properties.at.value))
        } else {
            None
        },
        _ => None,
    }
}

/// The report of a key that is set where the declared type has no use for it.
pub open spec fn misuse(at: Option<Provenance>, keyword: JsonSchemaKeywords) -> Seq<Diagnostic> {
    match at {
        Some(provenance) => seq![
            Diagnostic::at(DiagnosticKind::MisusedKey(keyword), provenance.key),
        ],
        None => Seq::empty(),
    }
}

/// The reports of the keys of strings on a level that is no string.
pub open spec fn string_misuses(node: SchemaModel) -> Seq<Diagnostic> {
    if node.ty != JsonSchemaTypes::String {
        misuse(provenance_of(node.min_length), JsonSchemaKeywords::MinLength) + misuse(
            provenance_of(node.max_length),
            JsonSchemaKeywords::MaxLength,
        ) + misuse(provenance_of(node.pattern), JsonSchemaKeywords::Pattern) + misuse(
            provenance_of(node.format),
            JsonSchemaKeywords::Format,
        )
    } else {
        Seq::empty()
    }
}

/// The reports of the keys of numbers on a level that is no number.
pub open spec fn number_misuses(node: SchemaModel) -> Seq<Diagnostic> {
    if node.ty != JsonSchemaTypes::Number {
        misuse(provenance_of(node.minimum), JsonSchemaKeywords::Minimum) + misuse(
            provenance_of(node.maximum),
            JsonSchemaKeywords::Maximum,
        )
    } else {
        Seq::empty()
    }
}

/// The reports of the keys of arrays on a level that is no array.
pub open spec fn array_misuses(node: SchemaModel) -> Seq<Diagnostic> {
    if node.ty != JsonSchemaTypes::Array {
        misuse(provenance_of(node.items), JsonSchemaKeywords::Items) + misuse(
            provenance_of(node.min_items),
            JsonSchemaKeywords::MinItems,
        ) + misuse(provenance_of(node.max_items), JsonSchemaKeywords::MaxItems) + misuse(
            provenance_of(node.unique_items),
            JsonSchemaKeywords::UniqueItems,
        ) + misuse(provenance_of(node.contains), JsonSchemaKeywords::Contains)
    } else {
        Seq::empty()
    }
}

/// The reports of the keys of objects on a level that is no object.
pub open spec fn object_misuses(node: SchemaModel) -> Seq<Diagnostic> {
    if node.ty != JsonSchemaTypes::Object {
        misuse(provenance_of(node.required), JsonSchemaKeywords::Required) + misuse(
            provenance_of(node.properties),
            JsonSchemaKeywords::Properties,
        )
    } else {
        Seq::empty()
    }
}

/// The report of a `struct` name on a level that is no object.
pub open spec fn struct_name_misuse(node: SchemaModel) -> Seq<Diagnostic> {
    match node.struct_name {
        Some(name) => if node.ty != JsonSchemaTypes::Object {
            seq![Diagnostic::at(DiagnosticKind::StructNameOnNonObject, name.at.key)]
        } else {
            Seq::empty()
        },
        None => Seq::empty(),
    }
}

/// Everything that is reported about a level without stopping: the keys of
/// strings, of numbers, of arrays and of objects that are out of place, in
/// this order, and then the `struct` name if it is.
pub open spec fn recoverable_diagnostics(node: SchemaModel) -> Seq<Diagnostic> {
    string_misuses(node) + number_misuses(node) + array_misuses(node) + object_misuses(node)
        + struct_name_misuse(node)
}

/// The fault, if any, in the name of a root: a level of depth 1 must have a
/// `struct` name, and the name must not be `key`.
pub open spec fn root_fault(node: SchemaModel) -> Option<Diagnostic> {
    if node.depth == 1 {
        match node.struct_name {
            None => Some(Diagnostic::at(DiagnosticKind::MissingRootName, node.current_key_span)),
            Some(name) => if name.value == "key"@ {
                Some(Diagnostic::at(DiagnosticKind::ReservedRootName, name.at.value))
            } else {
                None
            },
        }
    } else {
        None
    }
}

/// Whether `wanted` is one of `texts`.
fn contains_text(texts: &Vec<String>, wanted: &String) -> (found: bool)
    ensures
        found == texts.deep_view().contains(wanted@),
{
    let mut i: usize = 0;
    while i < texts.len()
        invariant
            i <= texts.len(),
            forall|j: int| 0 <= j < i ==> texts.deep_view()[j] != wanted@,
        decreases texts.len() - i,
    {
        assert(texts.deep_view()[i as int] == texts[i as int]@);
        if str_eq(texts[i].as_str(), wanted.as_str()) {
            return true;
        }
        i += 1;
    }
    false
}

/// Holds `required` against `properties`.
///
/// Returns the diagnostic that stops the compilation if both are present and
/// they differ in length or a property is not required.
#[verifier::loop_isolation(false)]
pub fn check_properties_match_required(schema: &JsonSchema) -> (fault: Option<Diagnostic>)
    ensures
        fault == required_fault(schema@),
{
    proof {
        lemma_schema_view(*schema);
    }
    let properties = match &schema.properties {
        Some(properties) => properties,
        None => {
            return None;
        },
    };
    let required = match &schema.required {
        Some(required) => required,
        None => {
            return None;
        },
    };
    if required.value.len() != properties.value.len() {
        return Some(Diagnostic::new(DiagnosticKind::RequiredCountMismatch, required.at.value));
    }
    let ghost entries = properties.value.deep_view();
    let ghost names = required.value.deep_view();
    let mut i: usize = 0;
    while i < properties.value.len()
        invariant
            i <= properties.value.len(),
            entries == properties.value.deep_view(),
            names == required.value.deep_view(),
            forall|j: int| 0 <= j < i ==> names.contains((#[trigger] entries[j]).0),
        decreases properties.value.len() - i,
    {
        assert(entries[i as int].0 == properties.value[i as int].0@);
        if !contains_text(&required.value, &properties.value[i].0) {
            return Some(
                Diagnostic::new(DiagnosticKind::RequiredMembershipMismatch, properties.at.value),
            );
        }
        i += 1;
    }
    None
}

/// Reports `keyword` if the field it sets is present.
fn report_misuse<T>(
    field: &Option<Located<T>>,
    keyword: JsonSchemaKeywords,
    sink: &mut Vec<Diagnostic>,
)
    ensures
        final(sink)@ == old(sink)@ + misuse(provenance_of(*field), keyword),
{
    match field {
        Some(located) => {
            sink.push(Diagnostic::new(DiagnosticKind::MisusedKey(keyword), located.at.key));
        },
        None => {},
    }
}

/// Reports the keys of strings on a schema that is no string.
fn check_string_type(schema: &JsonSchema, sink: &mut Vec<Diagnostic>)
    ensures
        final(sink)@ == old(sink)@ + string_misuses(schema@),
{
    if !matches!(schema.ty, JsonSchemaTypes::String) {
        report_misuse(&schema.min_length, JsonSchemaKeywords::MinLength, sink);
        report_misuse(&schema.max_length, JsonSchemaKeywords::MaxLength, sink);
        report_misuse(&schema.pattern, JsonSchemaKeywords::Pattern, sink);
        report_misuse(&schema.format, JsonSchemaKeywords::Format, sink);
    }
}

/// Reports the keys of numbers on a schema that is no number.
fn check_number_type(schema: &JsonSchema, sink: &mut Vec<Diagnostic>)
    ensures
        final(sink)@ == old(sink)@ + number_misuses(schema@),
{
    if !matches!(schema.ty, JsonSchemaTypes::Number) {
        report_misuse(&schema.minimum, JsonSchemaKeywords::Minimum, sink);
        report_misuse(&schema.maximum, JsonSchemaKeywords::Maximum, sink);
    }
}

/// Reports the keys of arrays on a schema that is no array.
fn check_array_type(schema: &JsonSchema, sink: &mut Vec<Diagnostic>)
    ensures
        final(sink)@ == old(sink)@ + array_misuses(schema@),
{
    proof {
        lemma_schema_view(*schema);
    }
    if !matches!(schema.ty, JsonSchemaTypes::Array) {
        report_misuse(&schema.items, JsonSchemaKeywords::Items, sink);
        report_misuse(&schema.min_items, JsonSchemaKeywords::MinItems, sink);
        report_misuse(&schema.max_items, JsonSchemaKeywords::MaxItems, sink);
        report_misuse(&schema.unique_items, JsonSchemaKeywords::UniqueItems, sink);
        report_misuse(&schema.contains, JsonSchemaKeywords::Contains, sink);
    }
}

/// Reports the keys of objects on a schema that is no object.
fn check_object_type(schema: &JsonSchema, sink: &mut Vec<Diagnostic>)
    ensures
        final(sink)@ == old(sink)@ + object_misuses(schema@),
{
    proof {
        lemma_schema_view(*schema);
    }
    if !matches!(schema.ty, JsonSchemaTypes::Object) {
        report_misuse(&schema.required, JsonSchemaKeywords::Required, sink);
        report_misuse(&schema.properties, JsonSchemaKeywords::Properties, sink);
    }
    assert(sink@ =~= old(sink)@ + object_misuses(schema@));
}

/// Checks where the `struct` name stands and how a root is named.
///
/// A `struct` name on a schema that is no object is added to `sink`. The
/// diagnostic returned, if any, stops the compilation: the schema is a root
/// and has no name, or is named `key`.
pub fn other_checks(schema: &JsonSchema, sink: &mut Vec<Diagnostic>) -> (fault: Option<Diagnostic>)
    ensures
        final(sink)@ == old(sink)@ + struct_name_misuse(schema@),
        fault == root_fault(schema@),
{
    match &schema.struct_name {
        Some(name) => {
            if !matches!(schema.ty, JsonSchemaTypes::Object) {
                sink.push(Diagnostic::new(DiagnosticKind::StructNameOnNonObject, name.at.key));
            }
            if schema.depth == 1 && str_eq(name.value.as_str(), "key") {
                Some(Diagnostic::new(DiagnosticKind::ReservedRootName, name.at.value))
            } else {
                None
            }
        },
        None => {
            if schema.depth == 1 {
                Some(Diagnostic::new(DiagnosticKind::MissingRootName, schema.current_key_span))
            } else {
                None
            }
        },
    }
}

/// Runs every check on the keys of a schema level.
///
/// The keys that are out of place for the declared type are added to `sink`,
/// and so is a `struct` name that is. The diagnostic returned, if any, stops
/// the compilation.
pub fn validate_keys(schema: &JsonSchema, sink: &mut Vec<Diagnostic>) -> (fault: Option<
    Diagnostic,
>)
    ensures
        final(sink)@ == old(sink)@ + recoverable_diagnostics(schema@),
        fault == root_fault(schema@),
{
    check_string_type(schema, sink);
    check_number_type(schema, sink);
    check_array_type(schema, sink);
    check_object_type(schema, sink);
    other_checks(schema, sink)
}

} // verus!
