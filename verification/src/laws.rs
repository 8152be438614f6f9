//! What holds of the compiler as a whole: the first occurrence of a keyword
//! wins, a root must have a name that is not `key`, and generation is a
//! function of the schema.

use crate::checkers::root_fault;
use crate::coercion::{coerce, coerce_pair};
use crate::diagnostics::{Diagnostic, DiagnosticKind, Provenance};
use crate::generator::{main_declaration, nested_declarations, sample_of};
use crate::literals::literal_value;
use crate::merge::merged;
use crate::models::{JsonSchema, JsonSchemaKeywords, JsonSchemaTypes, SchemaModel, ValueModel};
use crate::parsers::{checked, field_at, parse_fields, Outcome};
use crate::tokens::TokenModel;
use crate::declarations_of;
use vstd::prelude::*;

verus! {

/// Whether `node` has the field that `keyword` sets.
pub open spec fn has_field(node: SchemaModel, keyword: JsonSchemaKeywords) -> bool {
    match keyword {
        JsonSchemaKeywords::Type => node.ty != JsonSchemaTypes::Unset,
        JsonSchemaKeywords::Title => node.title is Some,
        JsonSchemaKeywords::Required => node.required is Some,
        JsonSchemaKeywords::Description => node.description is Some,
        JsonSchemaKeywords::Items => node.items is Some,
        JsonSchemaKeywords::Properties => node.properties is Some,
        JsonSchemaKeywords::Default => node.default is Some,
        JsonSchemaKeywords::Examples => node.examples is Some,
        JsonSchemaKeywords::Enum => node.enum_values is Some,
        JsonSchemaKeywords::Const => node.const_value is Some,
        JsonSchemaKeywords::MinLength => node.min_length is Some,
        JsonSchemaKeywords::MaxLength => node.max_length is Some,
        JsonSchemaKeywords::Pattern => node.pattern is Some,
        JsonSchemaKeywords::Format => node.format is Some,
        JsonSchemaKeywords::Minimum => node.minimum is Some,
        JsonSchemaKeywords::Maximum => node.maximum is Some,
        JsonSchemaKeywords::MinItems => node.min_items is Some,
        JsonSchemaKeywords::MaxItems => node.max_items is Some,
        JsonSchemaKeywords::UniqueItems => node.unique_items is Some,
        JsonSchemaKeywords::Contains => node.contains is Some,
        JsonSchemaKeywords::Struct => node.struct_name is Some,
    }
}

/// Whether `field` has the field that `keyword` sets and no other.
pub open spec fn has_only(field: SchemaModel, keyword: JsonSchemaKeywords) -> bool {
    forall|other: JsonSchemaKeywords| #[trigger] has_field(field, other) <==> other == keyword
}

/// What a keyword and a value are coerced to has the field of the keyword
/// and no other.
pub proof fn lemma_coerced_has_one_field(
    keyword: JsonSchemaKeywords,
    value: ValueModel,
    at: Provenance,
)
    requires
        coerce(keyword, value, at) is Ok,
    ensures
        has_only(coerce(keyword, value, at)->Ok_0, keyword),
{
    let field = coerce(keyword, value, at)->Ok_0;
    assert forall|other: JsonSchemaKeywords| #[trigger] has_field(field, other) <==> other
        == keyword by {
        lemma_empty_has_no_field(other);
    }
}

/// The empty schema has no field.
pub proof fn lemma_empty_has_no_field(keyword: JsonSchemaKeywords)
    ensures
        !has_field(SchemaModel::empty(), keyword),
{
}

/// A schema that has a field keeps it, value and provenance, when a schema
/// with that field alone joins it.
pub proof fn lemma_merge_ignores_repeated(
    node: SchemaModel,
    field: SchemaModel,
    keyword: JsonSchemaKeywords,
)
    requires
        has_field(node, keyword),
        has_only(field, keyword),
    ensures
        merged(node, field) == node,
{
    assert(has_field(field, JsonSchemaKeywords::Type) <==> keyword == JsonSchemaKeywords::Type);
    assert(has_field(field, JsonSchemaKeywords::Title) <==> keyword == JsonSchemaKeywords::Title);
    assert(has_field(field, JsonSchemaKeywords::Required) <==> keyword
        == JsonSchemaKeywords::Required);
    assert(has_field(field, JsonSchemaKeywords::Description) <==> keyword
        == JsonSchemaKeywords::Description);
    assert(has_field(field, JsonSchemaKeywords::Items) <==> keyword == JsonSchemaKeywords::Items);
    assert(has_field(field, JsonSchemaKeywords::Properties) <==> keyword
        == JsonSchemaKeywords::Properties);
    assert(has_field(field, JsonSchemaKeywords::Default) <==> keyword
        == JsonSchemaKeywords::Default);
    assert(has_field(field, JsonSchemaKeywords::Examples) <==> keyword
        == JsonSchemaKeywords::Examples);
    assert(has_field(field, JsonSchemaKeywords::Enum) <==> keyword == JsonSchemaKeywords::Enum);
    assert(has_field(field, JsonSchemaKeywords::Const) <==> keyword == JsonSchemaKeywords::Const);
    assert(has_field(field, JsonSchemaKeywords::MinLength) <==> keyword
        == JsonSchemaKeywords::MinLength);
    assert(has_field(field, JsonSchemaKeywords::MaxLength) <==> keyword
        == JsonSchemaKeywords::MaxLength);
    assert(has_field(field, JsonSchemaKeywords::Pattern) <==> keyword
        == JsonSchemaKeywords::Pattern);
    assert(has_field(field, JsonSchemaKeywords::Format) <==> keyword == JsonSchemaKeywords::Format);
    assert(has_field(field, JsonSchemaKeywords::Minimum) <==> keyword
        == JsonSchemaKeywords::Minimum);
    assert(has_field(field, JsonSchemaKeywords::Maximum) <==> keyword
        == JsonSchemaKeywords::Maximum);
    assert(has_field(field, JsonSchemaKeywords::MinItems) <==> keyword
        == JsonSchemaKeywords::MinItems);
    assert(has_field(field, JsonSchemaKeywords::MaxItems) <==> keyword
        == JsonSchemaKeywords::MaxItems);
    assert(has_field(field, JsonSchemaKeywords::UniqueItems) <==> keyword
        == JsonSchemaKeywords::UniqueItems);
    assert(has_field(field, JsonSchemaKeywords::Contains) <==> keyword
        == JsonSchemaKeywords::Contains);
    assert(has_field(field, JsonSchemaKeywords::Struct) <==> keyword == JsonSchemaKeywords::Struct);
}

/// A schema has the field of a keyword once a schema with that field has
/// joined it.
pub proof fn lemma_merge_sets_field(
    node: SchemaModel,
    field: SchemaModel,
    keyword: JsonSchemaKeywords,
)
    requires
        has_field(field, keyword),
    ensures
        has_field(merged(node, field), keyword),
{
}

/// The first occurrence of a keyword wins: once a field has come from a
/// keyword, a later value for the same keyword changes nothing, neither the
/// value of the field nor its provenance.
pub proof fn lemma_first_write_wins(
    node: SchemaModel,
    keyword: JsonSchemaKeywords,
    first: ValueModel,
    first_at: Provenance,
    second: ValueModel,
    second_at: Provenance,
)
    requires
        coerce(keyword, first, first_at) is Ok,
        coerce(keyword, second, second_at) is Ok,
    ensures
        merged(
            merged(node, coerce(keyword, first, first_at)->Ok_0),
            coerce(keyword, second, second_at)->Ok_0,
        ) == merged(node, coerce(keyword, first, first_at)->Ok_0),
{
    let earlier = coerce(keyword, first, first_at)->Ok_0;
    let later = coerce(keyword, second, second_at)->Ok_0;
    lemma_coerced_has_one_field(keyword, first, first_at);
    lemma_coerced_has_one_field(keyword, second, second_at);
    assert(has_field(earlier, keyword));
    lemma_merge_sets_field(node, earlier, keyword);
    lemma_merge_ignores_repeated(merged(node, earlier), later, keyword);
}

/// A keyword that is given again is read and then ignored: if the level has
/// the field of the keyword already, a later field with the same keyword and
/// a value of the right shape leaves the level as it is and reports nothing.
pub proof fn lemma_repeated_field_is_ignored(
    tokens: Seq<TokenModel>,
    start: int,
    node: SchemaModel,
    keyword: JsonSchemaKeywords,
)
    requires
        0 <= start,
        start + 2 < tokens.len(),
        tokens[start] is Ident,
        tokens[start]->Ident_0 != "properties"@,
        tokens[start]->Ident_0 != "items"@,
        tokens[start]->Ident_0 != "contains"@,
        JsonSchemaKeywords::from_name(tokens[start]->Ident_0) == Some(keyword),
        tokens[start + 1].is_punct(':'),
        literal_value(tokens[start + 2]) is Ok,
        coerce(
            keyword,
            literal_value(tokens[start + 2])->Ok_0,
            Provenance { key: tokens[start].span(), value: tokens[start + 2].span() },
        ) is Ok,
        has_field(node, keyword),
    ensures
        field_at(tokens, start, node) == (Outcome::<SchemaModel> {
            result: Ok(node),
            recoverable: Seq::empty(),
        }),
{
    let at = Provenance { key: tokens[start].span(), value: tokens[start + 2].span() };
    let literal = literal_value(tokens[start + 2])->Ok_0;
    lemma_coerced_has_one_field(keyword, literal, at);
    lemma_merge_ignores_repeated(node, coerce(keyword, literal, at)->Ok_0, keyword);
}

/// Reading goes on after a keyword that is given again as if the field were
/// not there: the rest of the block is read into the same level, with the
/// same diagnostics reported.
pub proof fn lemma_repeated_field_is_skipped(
    tokens: Seq<TokenModel>,
    pos: int,
    node: SchemaModel,
    reported: Seq<Diagnostic>,
    keyword: JsonSchemaKeywords,
)
    requires
        0 <= pos,
        pos > 0 ==> tokens[pos].is_punct(','),
        ({
            let start = if pos > 0 {
                pos + 1
            } else {
                pos
            };
            &&& start + 2 < tokens.len()
            &&& tokens[start] is Ident
            &&& tokens[start]->Ident_0 != "properties"@
            &&& tokens[start]->Ident_0 != "items"@
            &&& tokens[start]->Ident_0 != "contains"@
            &&& JsonSchemaKeywords::from_name(tokens[start]->Ident_0) == Some(keyword)
            &&& tokens[start + 1].is_punct(':')
            &&& literal_value(tokens[start + 2]) is Ok
            &&& coerce(
                keyword,
                literal_value(tokens[start + 2])->Ok_0,
                Provenance { key: tokens[start].span(), value: tokens[start + 2].span() },
            ) is Ok
        }),
        has_field(node, keyword),
    ensures
        parse_fields(tokens, pos, node, reported) == parse_fields(
            tokens,
            if pos > 0 {
                pos + 4
            } else {
                pos + 3
            },
            node,
            reported,
        ),
{
    let start = if pos > 0 {
        pos + 1
    } else {
        pos
    };
    lemma_repeated_field_is_ignored(tokens, start, node, keyword);
    assert(reported + Seq::<Diagnostic>::empty() =~= reported);
}

/// A field that a level has stays: no later field of the block takes it
/// away.
pub proof fn lemma_fields_stay(
    tokens: Seq<TokenModel>,
    start: int,
    node: SchemaModel,
    keyword: JsonSchemaKeywords,
)
    requires
        has_field(node, keyword),
    ensures
        field_at(tokens, start, node).result matches Ok(next) ==> has_field(next, keyword),
{
    if 0 <= start < tokens.len() {
        match tokens[start] {
            TokenModel::Ident(key, key_span) => {
                if start + 2 < tokens.len() && tokens[start + 1].is_punct(':') {
                    let value = tokens[start + 2];
                    let at = Provenance { key: key_span, value: value.span() };
                    if key == "properties"@ {
                    } else if key == "items"@ {
                    } else if key == "contains"@ {
                    } else {
                        match literal_value(value) {
                            Ok(literal) => match coerce_pair(key, literal, at) {
                                Ok(field) => {
                                    lemma_merge_keeps_presence(node, field, keyword);
                                },
                                Err(_) => {},
                            },
                            Err(_) => {},
                        }
                    }
                }
            },
            _ => {},
        }
    }
}

/// A schema that has a field has it after another schema has joined it.
pub proof fn lemma_merge_keeps_presence(
    node: SchemaModel,
    field: SchemaModel,
    keyword: JsonSchemaKeywords,
)
    requires
        has_field(node, keyword),
    ensures
        has_field(merged(node, field), keyword),
{
}

/// A field that a schema has is not touched by what joins it later.
pub proof fn lemma_merge_keeps_fields(node: SchemaModel, field: SchemaModel)
    ensures
        node.ty != JsonSchemaTypes::Unset ==> merged(node, field).ty == node.ty
            && merged(node, field).ty_span == node.ty_span,
        node.title is Some ==> merged(node, field).title == node.title,
        node.description is Some ==> merged(node, field).description == node.description,
        node.default is Some ==> merged(node, field).default == node.default,
        node.examples is Some ==> merged(node, field).examples == node.examples,
        node.enum_values is Some ==> merged(node, field).enum_values == node.enum_values,
        node.const_value is Some ==> merged(node, field).const_value == node.const_value,
        node.required is Some ==> merged(node, field).required == node.required,
        node.min_length is Some ==> merged(node, field).min_length == node.min_length,
        node.max_length is Some ==> merged(node, field).max_length == node.max_length,
        node.pattern is Some ==> merged(node, field).pattern == node.pattern,
        node.format is Some ==> merged(node, field).format == node.format,
        node.minimum is Some ==> merged(node, field).minimum == node.minimum,
        node.maximum is Some ==> merged(node, field).maximum == node.maximum,
        node.min_items is Some ==> merged(node, field).min_items == node.min_items,
        node.max_items is Some ==> merged(node, field).max_items == node.max_items,
        node.unique_items is Some ==> merged(node, field).unique_items == node.unique_items,
        node.struct_name is Some ==> merged(node, field).struct_name == node.struct_name,
{
}

/// A root must be named: a level of depth 1 without a `struct` name does not
/// pass the checks, whatever else it holds, and a level of any other depth
/// is never stopped for its name.
pub proof fn lemma_depth_rule(node: SchemaModel)
    ensures
        node.depth == 1 && node.struct_name is None ==> checked(node).result is Err && root_fault(
            node,
        ) == Some(Diagnostic::at(DiagnosticKind::MissingRootName, node.current_key_span)),
        node.depth != 1 ==> root_fault(node) is None,
{
}

/// A root named `key` does not pass the checks, whatever its type.
pub proof fn lemma_reserved_root_name(node: SchemaModel)
    requires
        node.depth == 1,
        node.struct_name is Some,
        node.struct_name->0.value == "key"@,
    ensures
        checked(node).result is Err,
        root_fault(node) == Some(
            Diagnostic::at(DiagnosticKind::ReservedRootName, node.struct_name->0.at.value),
        ),
{
}

/// Generation is a function of the schema: two schemas of equal value give
/// the same declarations, in the same order and under the same names.
pub proof fn lemma_generation_is_deterministic(
    first: JsonSchema,
    second: JsonSchema,
    name: Seq<char>,
)
    requires
        first@ == second@,
    ensures
        sample_of(first@) == sample_of(second@),
        main_declaration(sample_of(first@), name) == main_declaration(sample_of(second@), name),
        nested_declarations(sample_of(first@), name) == nested_declarations(
            sample_of(second@),
            name,
        ),
        declarations_of(first@, name) == declarations_of(second@, name),
{
}

} // verus!
