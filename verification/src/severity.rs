//! What stops the reading and what does not: the diagnostic that ends a
//! reading is never of a recoverable kind, and what is reported on the way
//! always is.

use crate::coercion::coerce_pair;
use crate::diagnostics::{Diagnostic, Provenance, Span};
use crate::checkers::{
    array_misuses, misuse, number_misuses, object_misuses, provenance_of,
    recoverable_diagnostics, string_misuses, struct_name_misuse,
};
use crate::literals::{literal_list, literal_value};
use crate::models::{JsonSchemaKeywords, SchemaModel, ValueModel};
use crate::parsers::{
    checked, contains_child, field_at, fresh, items_child, parse_fields, parse_properties,
    parse_schema, properties_block, remaining, Outcome, Properties,
};
use crate::tokens::{Delimiter, TokenModel};
use vstd::prelude::*;

verus! {

/// Whether every one of the diagnostics is of a recoverable kind.
pub open spec fn all_recoverable(diagnostics: Seq<Diagnostic>) -> bool {
    forall|i: int| 0 <= i < diagnostics.len() ==> (#[trigger] diagnostics[i]).kind.recoverable()
}

/// Two sequences of recoverable diagnostics give one when joined.
pub proof fn lemma_all_recoverable_join(first: Seq<Diagnostic>, second: Seq<Diagnostic>)
    requires
        all_recoverable(first),
        all_recoverable(second),
    ensures
        all_recoverable(first + second),
{
    assert forall|i: int| 0 <= i < (first + second).len() implies (#[trigger] (first
        + second)[i]).kind.recoverable() by {
        if i < first.len() {
            assert((first + second)[i] == first[i]);
        } else {
            assert((first + second)[i] == second[i - first.len()]);
        }
    }
}

/// The report of a key that is out of place is recoverable.
pub proof fn lemma_misuse_recoverable(at: Option<Provenance>, keyword: JsonSchemaKeywords)
    ensures
        all_recoverable(misuse(at, keyword)),
{
}

/// A key that is out of place never stops the compilation: what the checks
/// report without stopping is of a recoverable kind, and what they stop for
/// is not.
pub proof fn lemma_misuse_is_recoverable(node: SchemaModel)
    ensures
        all_recoverable(recoverable_diagnostics(node)),
        all_recoverable(checked(node).recoverable),
        checked(node).result matches Err(fault) ==> !fault.kind.recoverable(),
{
    let nothing = Seq::<Diagnostic>::empty();
    let strings = string_misuses(node);
    assert(all_recoverable(strings)) by {
        let a = misuse(provenance_of(node.min_length), JsonSchemaKeywords::MinLength);
        let b = misuse(provenance_of(node.max_length), JsonSchemaKeywords::MaxLength);
        let c = misuse(provenance_of(node.pattern), JsonSchemaKeywords::Pattern);
        let d = misuse(provenance_of(node.format), JsonSchemaKeywords::Format);
        lemma_misuse_recoverable(provenance_of(node.min_length), JsonSchemaKeywords::MinLength);
        lemma_misuse_recoverable(provenance_of(node.max_length), JsonSchemaKeywords::MaxLength);
        lemma_misuse_recoverable(provenance_of(node.pattern), JsonSchemaKeywords::Pattern);
        lemma_misuse_recoverable(provenance_of(node.format), JsonSchemaKeywords::Format);
        lemma_all_recoverable_join(a, b);
        lemma_all_recoverable_join(a + b, c);
        lemma_all_recoverable_join(a + b + c, d);
    }
    let numbers = number_misuses(node);
    assert(all_recoverable(numbers)) by {
        let a = misuse(provenance_of(node.minimum), JsonSchemaKeywords::Minimum);
        let b = misuse(provenance_of(node.maximum), JsonSchemaKeywords::Maximum);
        lemma_misuse_recoverable(provenance_of(node.minimum), JsonSchemaKeywords::Minimum);
        lemma_misuse_recoverable(provenance_of(node.maximum), JsonSchemaKeywords::Maximum);
        lemma_all_recoverable_join(a, b);
    }
    let arrays = array_misuses(node);
    assert(all_recoverable(arrays)) by {
        let a = misuse(provenance_of(node.items), JsonSchemaKeywords::Items);
        let b = misuse(provenance_of(node.min_items), JsonSchemaKeywords::MinItems);
        let c = misuse(provenance_of(node.max_items), JsonSchemaKeywords::MaxItems);
        let d = misuse(provenance_of(node.unique_items), JsonSchemaKeywords::UniqueItems);
        let e = misuse(provenance_of(node.contains), JsonSchemaKeywords::Contains);
        lemma_misuse_recoverable(provenance_of(node.items), JsonSchemaKeywords::Items);
        lemma_misuse_recoverable(provenance_of(node.min_items), JsonSchemaKeywords::MinItems);
        lemma_misuse_recoverable(provenance_of(node.max_items), JsonSchemaKeywords::MaxItems);
        lemma_misuse_recoverable(provenance_of(node.unique_items), JsonSchemaKeywords::UniqueItems);
        lemma_misuse_recoverable(provenance_of(node.contains), JsonSchemaKeywords::Contains);
        lemma_all_recoverable_join(a, b);
        lemma_all_recoverable_join(a + b, c);
        lemma_all_recoverable_join(a + b + c, d);
        lemma_all_recoverable_join(a + b + c + d, e);
    }
    let objects = object_misuses(node);
    assert(all_recoverable(objects)) by {
        let a = misuse(provenance_of(node.required), JsonSchemaKeywords::Required);
        let b = misuse(provenance_of(node.properties), JsonSchemaKeywords::Properties);
        lemma_misuse_recoverable(provenance_of(node.required), JsonSchemaKeywords::Required);
        lemma_misuse_recoverable(provenance_of(node.properties), JsonSchemaKeywords::Properties);
        lemma_all_recoverable_join(a, b);
    }
    let names = struct_name_misuse(node);
    assert(all_recoverable(names));
    lemma_all_recoverable_join(strings, numbers);
    lemma_all_recoverable_join(strings + numbers, arrays);
    lemma_all_recoverable_join(strings + numbers + arrays, objects);
    lemma_all_recoverable_join(strings + numbers + arrays + objects, names);
    assert(all_recoverable(nothing));
}

/// Whether an outcome keeps the two kinds of diagnostics apart.
pub open spec fn sorted_by_severity<T>(outcome: Outcome<T>) -> bool {
    &&& all_recoverable(outcome.recoverable)
    &&& outcome.result matches Err(fault) ==> !fault.kind.recoverable()
}

/// A token that is no literal stops the reading.
pub proof fn lemma_literal_faults_are_fatal(token: TokenModel)
    ensures
        literal_value(token) matches Err(fault) ==> !fault.kind.recoverable(),
    decreases token, 0int,
{
    match token {
        TokenModel::Group(delimiter, elements, _) => {
            if delimiter == Delimiter::Bracket {
                lemma_list_faults_are_fatal(elements, 0, Seq::empty());
            }
        },
        _ => {},
    }
}

/// A list that is no list of literals stops the reading.
pub proof fn lemma_list_faults_are_fatal(
    tokens: Seq<TokenModel>,
    pos: int,
    values: Seq<ValueModel>,
)
    ensures
        literal_list(tokens, pos, values) matches Err(fault) ==> !fault.kind.recoverable(),
    decreases tokens, tokens.len() - pos,
{
    if 0 <= pos < tokens.len() {
        lemma_literal_faults_are_fatal(tokens[pos]);
        match literal_value(tokens[pos]) {
            Ok(value) => {
                if pos + 1 < tokens.len() && tokens[pos + 1].is_punct(',') {
                    lemma_list_faults_are_fatal(tokens, pos + 2, values.push(value));
                }
            },
            Err(_) => {},
        }
    }
}

/// A value of the wrong shape stops the reading.
pub proof fn lemma_coercion_faults_are_fatal(key: Seq<char>, literal: ValueModel, at: Provenance)
    ensures
        coerce_pair(key, literal, at) matches Err(fault) ==> !fault.kind.recoverable(),
{
}

/// Reading a schema block keeps the two kinds of diagnostics apart.
pub proof fn lemma_schema_severity(tokens: Seq<TokenModel>, depth: usize, anchor: Span)
    ensures
        sorted_by_severity(parse_schema(tokens, depth, anchor)),
    decreases tokens, 2 * tokens.len() + 2,
{
    if depth != usize::MAX {
        lemma_fields_severity(tokens, 0, fresh(depth, anchor), Seq::empty());
    }
}

/// Reading the fields of a block keeps the two kinds of diagnostics apart.
pub proof fn lemma_fields_severity(
    tokens: Seq<TokenModel>,
    pos: int,
    node: SchemaModel,
    reported: Seq<Diagnostic>,
)
    requires
        all_recoverable(reported),
    ensures
        sorted_by_severity(parse_fields(tokens, pos, node, reported)),
    decreases tokens, 2 * remaining(tokens, pos) + 1,
{
    lemma_misuse_is_recoverable(node);
    lemma_all_recoverable_join(reported, checked(node).recoverable);
    if pos < 0 || pos >= tokens.len() {
    } else if pos > 0 && !tokens[pos].is_punct(',') {
    } else {
        let start = if pos > 0 {
            pos + 1
        } else {
            pos
        };
        if start < tokens.len() {
            let field = field_at(tokens, start, node);
            lemma_field_severity(tokens, start, node);
            lemma_all_recoverable_join(reported, field.recoverable);
            match field.result {
                Ok(next) => {
                    lemma_fields_severity(tokens, start + 3, next, reported + field.recoverable);
                },
                Err(_) => {},
            }
        }
    }
}

/// Reading one field keeps the two kinds of diagnostics apart.
pub proof fn lemma_field_severity(tokens: Seq<TokenModel>, start: int, node: SchemaModel)
    requires
        0 <= start < tokens.len(),
    ensures
        sorted_by_severity(field_at(tokens, start, node)),
    decreases tokens, 2 * remaining(tokens, start),
{
    match tokens[start] {
        TokenModel::Ident(key, key_span) => {
            if start + 2 < tokens.len() && tokens[start + 1].is_punct(':') {
                let value = tokens[start + 2];
                let at = Provenance { key: key_span, value: value.span() };
                if key == "properties"@ {
                    lemma_block_severity(value, node.depth);
                } else if key == "items"@ {
                    lemma_items_severity(value, key_span, node.depth, node.items is Some);
                } else if key == "contains"@ {
                    lemma_contains_severity(value, key_span, node.depth, node.contains is Some);
                } else {
                    lemma_literal_faults_are_fatal(value);
                    match literal_value(value) {
                        Ok(literal) => {
                            lemma_coercion_faults_are_fatal(key, literal, at);
                        },
                        Err(_) => {},
                    }
                }
            }
        },
        _ => {},
    }
}

/// Reading the value of `items` keeps the two kinds of diagnostics apart.
pub proof fn lemma_items_severity(value: TokenModel, key_span: Span, depth: usize, occupied: bool)
    ensures
        sorted_by_severity(items_child(value, key_span, depth, occupied)),
    decreases value, 0int,
{
    match value {
        TokenModel::Group(delimiter, inner, span) => {
            if delimiter == Delimiter::Brace {
                lemma_schema_severity(inner, (depth + 1) as usize, span);
            }
        },
        _ => {},
    }
}

/// Reading the value of `contains` keeps the two kinds of diagnostics apart.
pub proof fn lemma_contains_severity(
    value: TokenModel,
    key_span: Span,
    depth: usize,
    occupied: bool,
)
    ensures
        sorted_by_severity(contains_child(value, key_span, depth, occupied)),
    decreases value, 0int,
{
    match value {
        TokenModel::Group(delimiter, inner, span) => {
            if delimiter == Delimiter::Brace {
                lemma_schema_severity(inner, (depth + 1) as usize, span);
            }
        },
        _ => {},
    }
}

/// Reading the value of `properties` keeps the two kinds of diagnostics
/// apart.
pub proof fn lemma_block_severity(value: TokenModel, depth: usize)
    ensures
        sorted_by_severity(properties_block(value, depth)),
    decreases value, 0int,
{
    match value {
        TokenModel::Group(delimiter, inner, _) => {
            if delimiter == Delimiter::Brace {
                lemma_properties_severity(inner, 0, Seq::empty(), Seq::empty(), depth);
            }
        },
        _ => {},
    }
}

/// Reading the rest of a `properties` block keeps the two kinds of
/// diagnostics apart.
pub proof fn lemma_properties_severity(
    tokens: Seq<TokenModel>,
    pos: int,
    entries: Properties,
    reported: Seq<Diagnostic>,
    depth: usize,
)
    requires
        all_recoverable(reported),
    ensures
        sorted_by_severity(parse_properties(tokens, pos, entries, reported, depth)),
    decreases tokens, remaining(tokens, pos),
{
    if pos < 0 || pos >= tokens.len() {
    } else if pos > 0 && !tokens[pos].is_punct(',') {
    } else {
        let start = if pos > 0 {
            pos + 1
        } else {
            pos
        };
        if start < tokens.len() {
            match tokens[start] {
                TokenModel::Str(name, _) => {
                    if start + 2 < tokens.len() && tokens[start + 1].is_punct(':') {
                        match tokens[start + 2] {
                            TokenModel::Group(delimiter, inner, span) => {
                                if delimiter == Delimiter::Brace {
                                    let block = parse_schema(inner, (depth + 1) as usize, span);
                                    lemma_schema_severity(inner, (depth + 1) as usize, span);
                                    lemma_all_recoverable_join(reported, block.recoverable);
                                    match block.result {
                                        Ok(schema) => {
                                            lemma_properties_severity(
                                                tokens,
                                                start + 3,
                                                crate::parsers::with_property(
                                                    entries,
                                                    name,
                                                    schema,
                                                ),
                                                reported + block.recoverable,
                                                depth,
                                            );
                                        },
                                        Err(_) => {},
                                    }
                                }
                            },
                            _ => {},
                        }
                    }
                },
                _ => {},
            }
        }
    }
}

} // verus!
