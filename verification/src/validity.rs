//! What holds of every level of a schema that the parser accepts.

use crate::checkers::root_fault;
use crate::coercion::coerce_pair;
use crate::diagnostics::{Diagnostic, Provenance, Span};
use crate::literals::literal_value;
use crate::models::{JsonSchemaTypes, SchemaModel};
use crate::parsers::{
    bare, checked, contains_child, field_at, first_named, fresh, items_child, parse_fields,
    parse_properties, parse_schema, properties_block, remaining, with_property, Properties,
};
use crate::tokens::{Delimiter, TokenModel};
use vstd::prelude::*;

verus! {

/// Whether no name occurs twice among the properties.
pub open spec fn distinct_names(entries: Properties) -> bool {
    forall|i: int, j: int|
        0 <= i < j < entries.len() ==> (#[trigger] entries[i]).0 != (#[trigger] entries[j]).0
}

/// Whether the properties are named differently, and each is a valid schema
/// of depth `depth`.
pub open spec fn valid_properties(entries: Properties, depth: int) -> bool
    decreases entries, 1int,
{
    &&& distinct_names(entries)
    &&& forall|i: int|
        0 <= i < entries.len() ==> (#[trigger] entries[i]).1.depth == depth && valid(
            entries[i].1,
        )
}

/// Whether the schemas inside `node` are valid and one level deeper than
/// `node`.
pub open spec fn valid_inside(node: SchemaModel) -> bool
    decreases node, 2int,
{
    &&& match node.properties {
        Some(properties) => valid_properties(properties.value, node.depth + 1),
        None => true,
    }
    &&& match node.items {
        Some(items) => items.value.depth == node.depth + 1 && valid(*items.value),
        None => true,
    }
    &&& match node.contains {
        Some(contains) => contains.value.depth == node.depth + 1 && valid(*contains.value),
        None => true,
    }
}

/// Whether a schema is valid through and through: the level passes the
/// checks at its end, so that it has a type, its `required` list fits its
/// properties and a root has a name, and the same holds of every schema
/// inside it.
pub open spec fn valid(node: SchemaModel) -> bool
    decreases node, 3int,
{
    &&& checked(node).result == Ok::<SchemaModel, Diagnostic>(node)
    &&& valid_inside(node)
}

/// Reading a field leaves the depth of the level as it is.
pub proof fn lemma_field_keeps_depth(tokens: Seq<TokenModel>, start: int, node: SchemaModel)
    ensures
        field_at(tokens, start, node).result matches Ok(next) ==> next.depth == node.depth,
{
}

/// A schema that comes out of the fields of a block has passed the checks
/// at the end of the level, and has the depth that it was started with.
pub proof fn lemma_fields_are_checked(
    tokens: Seq<TokenModel>,
    pos: int,
    node: SchemaModel,
    reported: Seq<Diagnostic>,
)
    ensures
        parse_fields(tokens, pos, node, reported).result matches Ok(read) ==> checked(read).result
            == Ok::<SchemaModel, Diagnostic>(read) && read.depth == node.depth,
    decreases remaining(tokens, pos),
{
    if pos < 0 || pos >= tokens.len() {
    } else if pos > 0 && !tokens[pos].is_punct(',') {
    } else {
        let start = if pos > 0 {
            pos + 1
        } else {
            pos
        };
        if start >= tokens.len() {
        } else {
            let field = field_at(tokens, start, node);
            lemma_field_keeps_depth(tokens, start, node);
            match field.result {
                Ok(next) => {
                    lemma_fields_are_checked(tokens, start + 3, next, reported + field.recoverable);
                },
                Err(_) => {},
            }
        }
    }
}

/// Every schema that the parser accepts is valid: the checks at the end of
/// its level find nothing that stops the compilation, it has the depth it
/// was read at, and a root has a `struct` name, so that its declarations
/// can be generated.
pub proof fn lemma_parsed_is_checked(tokens: Seq<TokenModel>, depth: usize, anchor: Span)
    ensures
        parse_schema(tokens, depth, anchor).result matches Ok(node) ==> {
            &&& checked(node).result == Ok::<SchemaModel, Diagnostic>(node)
            &&& root_fault(node) is None
            &&& node.depth == depth
            &&& depth == 1 ==> node.struct_name is Some
        },
{
    if depth != usize::MAX {
        lemma_fields_are_checked(tokens, 0, fresh(depth, anchor), Seq::empty());
    }
}

/// A schema with a type alone is valid below the root.
pub proof fn lemma_bare_is_valid(
    ty: JsonSchemaTypes,
    ty_span: Option<Provenance>,
    depth: usize,
    anchor: Span,
)
    requires
        ty != JsonSchemaTypes::Unset,
        depth != 1,
    ensures
        valid(bare(ty, ty_span, depth, anchor)),
{
}

/// Properties stay valid when a valid schema is given a name among them.
pub proof fn lemma_with_property_valid(
    entries: Properties,
    name: Seq<char>,
    schema: SchemaModel,
    depth: int,
)
    requires
        valid_properties(entries, depth),
        valid(schema),
        schema.depth == depth,
    ensures
        valid_properties(with_property(entries, name, schema), depth),
{
    let next = with_property(entries, name, schema);
    if exists|i: int| first_named(entries, name, i) {
        let at = choose|i: int| first_named(entries, name, i);
        assert forall|i: int, j: int| 0 <= i < j < next.len() implies (#[trigger] next[i]).0 != (
        #[trigger] next[j]).0 by {
            assert(entries[i].0 != entries[j].0);
        }
        assert forall|i: int| 0 <= i < next.len() implies (#[trigger] next[i]).1.depth == depth
            && valid(next[i].1) by {
            if i != at {
                assert(next[i] == entries[i]);
            }
        }
    } else {
        assert forall|i: int, j: int| 0 <= i < j < next.len() implies (#[trigger] next[i]).0 != (
        #[trigger] next[j]).0 by {
            if j < entries.len() {
                assert(entries[i].0 != entries[j].0);
            } else {
                lemma_absent(entries, name, entries.len() as int);
                assert(entries[i].0 != name);
            }
        }
        assert forall|i: int| 0 <= i < next.len() implies (#[trigger] next[i]).1.depth == depth
            && valid(next[i].1) by {
            if i < entries.len() {
                assert(next[i] == entries[i]);
            }
        }
    }
}

/// A name that is held nowhere first is held nowhere before `upto`.
pub proof fn lemma_absent(entries: Properties, name: Seq<char>, upto: int)
    requires
        0 <= upto <= entries.len(),
        forall|i: int| !first_named(entries, name, i),
    ensures
        forall|i: int| 0 <= i < upto ==> (#[trigger] entries[i]).0 != name,
    decreases upto,
{
    if upto > 0 {
        lemma_absent(entries, name, upto - 1);
        assert(!first_named(entries, name, upto - 1));
    }
}

/// Every schema that comes out of a block is valid and has the depth that
/// the block was read at.
pub proof fn lemma_schema_is_valid(tokens: Seq<TokenModel>, depth: usize, anchor: Span)
    requires
        depth >= 1,
    ensures
        parse_schema(tokens, depth, anchor).result matches Ok(node) ==> valid(node) && node.depth
            == depth,
    decreases tokens, 2 * tokens.len() + 2,
{
    if depth != usize::MAX {
        lemma_fields_are_valid(tokens, 0, fresh(depth, anchor), Seq::empty());
    }
}

/// Every root schema that the parser accepts is valid through and through,
/// and has the name under which its declarations are generated.
pub proof fn lemma_accepted_root_is_valid(tokens: Seq<TokenModel>, anchor: Span)
    ensures
        parse_schema(tokens, 1, anchor).result matches Ok(node) ==> {
            &&& valid(node)
            &&& node.depth == 1
            &&& root_fault(node) is None
            &&& node.struct_name is Some
        },
{
    lemma_schema_is_valid(tokens, 1, anchor);
}

/// The fields of a block give a valid schema if what was read before them
/// holds valid schemas.
pub proof fn lemma_fields_are_valid(
    tokens: Seq<TokenModel>,
    pos: int,
    node: SchemaModel,
    reported: Seq<Diagnostic>,
)
    requires
        1 <= node.depth < usize::MAX,
        valid_inside(node),
    ensures
        parse_fields(tokens, pos, node, reported).result matches Ok(read) ==> valid(read)
            && read.depth == node.depth,
    decreases tokens, 2 * remaining(tokens, pos) + 1,
{
    lemma_fields_are_checked(tokens, pos, node, reported);
    if pos < 0 || pos >= tokens.len() {
    } else if pos > 0 && !tokens[pos].is_punct(',') {
    } else {
        let start = if pos > 0 {
            pos + 1
        } else {
            pos
        };
        if start >= tokens.len() {
        } else {
            let field = field_at(tokens, start, node);
            lemma_field_keeps_depth(tokens, start, node);
            lemma_field_is_valid(tokens, start, node);
            match field.result {
                Ok(next) => {
                    lemma_fields_are_valid(tokens, start + 3, next, reported + field.recoverable);
                },
                Err(_) => {},
            }
        }
    }
}

/// A field leaves the schemas inside a level valid.
pub proof fn lemma_field_is_valid(tokens: Seq<TokenModel>, start: int, node: SchemaModel)
    requires
        1 <= node.depth < usize::MAX,
        valid_inside(node),
        0 <= start < tokens.len(),
    ensures
        field_at(tokens, start, node).result matches Ok(next) ==> valid_inside(next),
    decreases tokens, 2 * remaining(tokens, start),
{
    match tokens[start] {
        TokenModel::Ident(key, key_span) => {
            if start + 2 < tokens.len() && tokens[start + 1].is_punct(':') {
                let value = tokens[start + 2];
                let at = Provenance { key: key_span, value: value.span() };
                if key == "properties"@ {
                    lemma_block_is_valid(value, node.depth);
                } else if key == "items"@ {
                    lemma_items_are_valid(value, key_span, node.depth, node.items is Some);
                } else if key == "contains"@ {
                    lemma_contains_is_valid(value, key_span, node.depth, node.contains is Some);
                } else {
                    match literal_value(value) {
                        Ok(literal) => {
                            lemma_coerced_holds_no_schema(key, literal, at);
                        },
                        Err(_) => {},
                    }
                }
            }
        },
        _ => {},
    }
}

/// What a key and a literal are coerced to holds no schema inside it.
pub proof fn lemma_coerced_holds_no_schema(key: Seq<char>, literal: crate::models::ValueModel, at: Provenance)
    ensures
        coerce_pair(key, literal, at) matches Ok(field) ==> field.properties is None
            && field.items is None && field.contains is None,
{
}

/// The schema of the elements of an array is valid.
pub proof fn lemma_items_are_valid(value: TokenModel, key_span: Span, depth: usize, occupied: bool)
    requires
        1 <= depth < usize::MAX,
    ensures
        items_child(value, key_span, depth, occupied).result matches Ok(child) ==> valid(child)
            && child.depth == depth + 1,
    decreases value, 0int,
{
    match value {
        TokenModel::Ident(name, span) => {
            match JsonSchemaTypes::from_name(name) {
                Some(ty) => {
                    lemma_bare_is_valid(
                        ty,
                        Some(Provenance { key: key_span, value: span }),
                        (depth + 1) as usize,
                        span,
                    );
                },
                None => {},
            }
        },
        TokenModel::Group(delimiter, inner, span) => {
            if delimiter == Delimiter::Brace {
                lemma_schema_is_valid(inner, (depth + 1) as usize, span);
            }
        },
        _ => {},
    }
}

/// The schema that `contains` keeps is valid.
pub proof fn lemma_contains_is_valid(
    value: TokenModel,
    key_span: Span,
    depth: usize,
    occupied: bool,
)
    requires
        1 <= depth < usize::MAX,
    ensures
        contains_child(value, key_span, depth, occupied).result matches Ok(child) ==> valid(child)
            && child.depth == depth + 1,
    decreases value, 0int,
{
    match value {
        TokenModel::Ident(name, span) => {
            match JsonSchemaTypes::from_name(name) {
                Some(ty) => {
                    lemma_bare_is_valid(
                        ty,
                        Some(Provenance { key: key_span, value: span }),
                        (depth + 1) as usize,
                        span,
                    );
                },
                None => {},
            }
        },
        TokenModel::Group(delimiter, inner, span) => {
            if delimiter == Delimiter::Brace {
                lemma_schema_is_valid(inner, (depth + 1) as usize, span);
                match parse_schema(inner, (depth + 1) as usize, span).result {
                    Ok(schema) => {
                        lemma_bare_is_valid(schema.ty, schema.ty_span, (depth + 1) as usize, span);
                    },
                    Err(_) => {},
                }
            }
        },
        _ => {},
    }
}

/// The properties of a block are valid.
pub proof fn lemma_block_is_valid(value: TokenModel, depth: usize)
    requires
        1 <= depth < usize::MAX,
    ensures
        properties_block(value, depth).result matches Ok(entries) ==> valid_properties(
            entries,
            depth + 1,
        ),
    decreases value, 0int,
{
    match value {
        TokenModel::Group(delimiter, inner, span) => {
            if delimiter == Delimiter::Brace {
                lemma_properties_are_valid(inner, 0, Seq::empty(), Seq::empty(), depth);
            }
        },
        _ => {},
    }
}

/// The rest of a `properties` block leaves valid properties valid.
pub proof fn lemma_properties_are_valid(
    tokens: Seq<TokenModel>,
    pos: int,
    entries: Properties,
    reported: Seq<Diagnostic>,
    depth: usize,
)
    requires
        1 <= depth < usize::MAX,
        valid_properties(entries, depth + 1),
    ensures
        parse_properties(tokens, pos, entries, reported, depth).result matches Ok(all)
            ==> valid_properties(all, depth + 1),
    decreases tokens, remaining(tokens, pos),
{
    if pos < 0 || pos >= tokens.len() {
    } else if pos > 0 && !tokens[pos].is_punct(',') {
    } else {
        let start = if pos > 0 {
            pos + 1
        } else {
            pos
        };
        if start < tokens.len() {
            match tokens[start] {
                TokenModel::Str(name, name_span) => {
                    if start + 2 < tokens.len() && tokens[start + 1].is_punct(':') {
                        match tokens[start + 2] {
                            TokenModel::Group(delimiter, inner, span) => {
                                if delimiter == Delimiter::Brace {
                                    let block = parse_schema(inner, (depth + 1) as usize, span);
                                    lemma_schema_is_valid(inner, (depth + 1) as usize, span);
                                    match block.result {
                                        Ok(schema) => {
                                            lemma_with_property_valid(
                                                entries,
                                                name,
                                                schema,
                                                depth + 1,
                                            );
                                            lemma_properties_are_valid(
                                                tokens,
                                                start + 3,
                                                with_property(entries, name, schema),
                                                reported + block.recoverable,
                                                depth,
                                            );
                                        },
                                        Err(_) => {},
                                    }
                                }
                            },
                            _ => {},
                        }
                    }
                },
                _ => {},
            }
        }
    }
}

} // verus!
