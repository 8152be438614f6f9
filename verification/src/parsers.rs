//! The grammar of schemas, and the parser that reads it.
//!
//! A schema is a list of fields separated by commas, with at most one comma
//! after the last. A field is `properties`, a colon and a brace block of
//! named schemas; `items` or `contains`, a colon and a type or a brace block
//! that holds a schema; or any other keyword, a colon and a literal.

use crate::checkers::{
    check_properties_match_required, recoverable_diagnostics, required_fault, root_fault,
    validate_keys,
};
use crate::coercion::coerce_pair;
use crate::diagnostics::{result_model, Diagnostic, DiagnosticKind, Located, Provenance, Span};
use crate::literals::literal_value;
use crate::merge::merged;
use crate::models::{
    lemma_schema_view, JsonSchema, JsonSchemaKeywords, JsonSchemaTypes, JsonSchemaValues,
    SchemaModel,
};
use crate::text::str_eq;
use crate::tokens::{lemma_group_view, Delimiter, Token, TokenModel};
use vstd::prelude::*;

verus! {

/// What reading a piece of the source gave: the thing read, or the
/// diagnostic that stopped the reading, and the diagnostics that were
/// reported without stopping it, in the order in which they were found.
pub struct Outcome<T> {
    pub result: Result<T, Diagnostic>,
    pub recoverable: Seq<Diagnostic>,
}

impl<T> Outcome<T> {
    /// The outcome of a reading that stopped at `span` for the reason `kind`.
    pub open spec fn stop(kind: DiagnosticKind, span: Span, recoverable: Seq<Diagnostic>) -> Outcome<
        T,
    > {
        Outcome { result: Err(Diagnostic::at(kind, span)), recoverable }
    }

    /// This outcome, after `reported` had been reported already.
    pub open spec fn after(self, reported: Seq<Diagnostic>) -> Outcome<T> {
        Outcome { result: self.result, recoverable: reported + self.recoverable }
    }
}

/// The named schemas of a `properties` block.
pub type Properties = Seq<(Seq<char>, SchemaModel)>;

/// A schema level on which nothing is set yet.
pub open spec fn fresh(depth: usize, anchor: Span) -> SchemaModel {
    SchemaModel { depth, current_key_span: anchor, ..SchemaModel::empty() }
}

/// The schema that a bare type stands for: a level with a type and nothing
/// else.
pub open spec fn bare(
    ty: JsonSchemaTypes,
    ty_span: Option<Provenance>,
    depth: usize,
    anchor: Span,
) -> SchemaModel {
    SchemaModel { ty, ty_span, ..fresh(depth, anchor) }
}

/// Whether `i` is the first place in `entries` that holds `name`.
pub open spec fn first_named(entries: Properties, name: Seq<char>, i: int) -> bool {
    &&& 0 <= i < entries.len()
    &&& entries[i].0 == name
    &&& forall|j: int| 0 <= j < i ==> (#[trigger] entries[j]).0 != name
}

/// The properties after `schema` was given the name `name`: a name that is
/// there already keeps its place and gets the new schema, a new name goes to
/// the end.
pub open spec fn with_property(entries: Properties, name: Seq<char>, schema: SchemaModel) -> Properties {
    if exists|i: int| first_named(entries, name, i) {
        entries.update(choose|i: int| first_named(entries, name, i), (name, schema))
    } else {
        entries.push((name, schema))
    }
}

/// How many tokens are left from `pos` on.
pub open spec fn remaining(tokens: Seq<TokenModel>, pos: int) -> nat {
    if 0 <= pos <= tokens.len() {
        (tokens.len() - pos) as nat
    } else {
        0
    }
}

/// What the checks at the end of a level give for a schema whose fields are
/// all read.
///
/// `required` without `properties`, a missing type and a `required` list that
/// does not match the properties stop the reading, in this order. Then the
/// keys that are out of place are reported, and the name of a root is
/// checked.
pub open spec fn checked(node: SchemaModel) -> Outcome<SchemaModel> {
    if node.required is Some && node.properties is None {
        Outcome::stop(
            DiagnosticKind::RequiredWithoutProperties,
            node.required->0.at.value,
            Seq::empty(),
        )
    } else if node.ty == JsonSchemaTypes::Unset {
        Outcome::stop(DiagnosticKind::TypeNotSet, node.current_key_span, Seq::empty())
    } else {
        match required_fault(node) {
            Some(fault) => Outcome { result: Err(fault), recoverable: Seq::empty() },
            None => match root_fault(node) {
                Some(fault) => Outcome {
                    result: Err(fault),
                    recoverable: recoverable_diagnostics(node),
                },
                None => Outcome { result: Ok(node), recoverable: recoverable_diagnostics(node) },
            },
        }
    }
}

/// What reading a whole schema block gives.
///
/// `tokens` are the tokens between the braces, `depth` is the depth of the
/// level (1 for a root), and `anchor` is the place of the block. A block at
/// the greatest depth that can be counted is refused.
pub open spec fn parse_schema(tokens: Seq<TokenModel>, depth: usize, anchor: Span) -> Outcome<
    SchemaModel,
>
    decreases tokens, 2 * tokens.len() + 2,
{
    if depth == usize::MAX {
        Outcome::stop(DiagnosticKind::NestingTooDeep, anchor, Seq::empty())
    } else {
        parse_fields(tokens, 0, fresh(depth, anchor), Seq::empty())
    }
}

/// What reading the rest of a schema block gives, from `pos` on, where
/// `node` holds the fields read so far and `reported` what was reported.
pub open spec fn parse_fields(
    tokens: Seq<TokenModel>,
    pos: int,
    node: SchemaModel,
    reported: Seq<Diagnostic>,
) -> Outcome<SchemaModel>
    decreases tokens, 2 * remaining(tokens, pos) + 1,
{
    if pos < 0 || pos >= tokens.len() {
        checked(node).after(reported)
    } else if pos > 0 && !tokens[pos].is_punct(',') {
        Outcome::stop(DiagnosticKind::ExpectedComma, tokens[pos].span(), reported)
    } else {
        let start = if pos > 0 {
            pos + 1
        } else {
            pos
        };
        if start >= tokens.len() {
            checked(node).after(reported)
        } else {
            let field = field_at(tokens, start, node);
            match field.result {
                Ok(next) => parse_fields(tokens, start + 3, next, reported + field.recoverable),
                Err(_) => field.after(reported),
            }
        }
    }
}

/// What reading the field that starts at `start` gives: `node` with the
/// field added to it, and what was reported while the field was read.
pub open spec fn field_at(tokens: Seq<TokenModel>, start: int, node: SchemaModel) -> Outcome<
    SchemaModel,
>
    decreases tokens, 2 * remaining(tokens, start),
{
    let nothing = Seq::<Diagnostic>::empty();
    if start < 0 || start >= tokens.len() {
        Outcome { result: Ok(node), recoverable: nothing }
    } else {
        match tokens[start] {
            TokenModel::Ident(key, key_span) => if start + 1 >= tokens.len() {
                Outcome::stop(DiagnosticKind::ExpectedColon, key_span, nothing)
            } else if !tokens[start + 1].is_punct(':') {
                Outcome::stop(DiagnosticKind::ExpectedColon, tokens[start + 1].span(), nothing)
            } else if start + 2 >= tokens.len() {
                Outcome::stop(DiagnosticKind::ExpectedValue, tokens[start + 1].span(), nothing)
            } else {
                let value = tokens[start + 2];
                let at = Provenance { key: key_span, value: value.span() };
                if key == "properties"@ {
                    let block = properties_block(value, node.depth);
                    match block.result {
                        Ok(entries) => Outcome {
                            result: Ok(
                                SchemaModel {
                                    properties: Some(Located { value: entries, at }),
                                    ..node
                                },
                            ),
                            recoverable: block.recoverable,
                        },
                        Err(fault) => Outcome {
                            result: Err(fault),
                            recoverable: block.recoverable,
                        },
                    }
                } else if key == "items"@ {
                    let child = items_child(value, key_span, node.depth, node.items is Some);
                    match child.result {
                        Ok(schema) => Outcome {
                            result: Ok(
                                SchemaModel {
                                    items: Some(Located { value: Box::new(schema), at }),
                                    ..node
                                },
                            ),
                            recoverable: child.recoverable,
                        },
                        Err(fault) => Outcome {
                            result: Err(fault),
                            recoverable: child.recoverable,
                        },
                    }
                } else if key == "contains"@ {
                    let child = contains_child(value, key_span, node.depth, node.contains is Some);
                    match child.result {
                        Ok(schema) => Outcome {
                            result: Ok(
                                SchemaModel {
                                    contains: Some(Located { value: Box::new(schema), at }),
                                    ..node
                                },
                            ),
                            recoverable: child.recoverable,
                        },
                        Err(fault) => Outcome {
                            result: Err(fault),
                            recoverable: child.recoverable,
                        },
                    }
                } else {
                    match literal_value(value) {
                        Ok(literal) => match coerce_pair(key, literal, at) {
                            Ok(field) => Outcome {
                                result: Ok(merged(node, field)),
                                recoverable: nothing,
                            },
                            Err(fault) => Outcome { result: Err(fault), recoverable: nothing },
                        },
                        Err(fault) => Outcome { result: Err(fault), recoverable: nothing },
                    }
                }
            },
            other => Outcome::stop(DiagnosticKind::ExpectedKey, other.span(), nothing),
        }
    }
}

/// What reading the value of `items` gives: the schema of the elements.
///
/// A bare type stands for a schema with that type alone; a brace block is
/// read as a schema. `items` may be given once: `occupied` says that it was
/// given before.
pub open spec fn items_child(value: TokenModel, key_span: Span, depth: usize, occupied: bool) -> Outcome<
    SchemaModel,
>
    decreases value, 0int,
{
    let nested = (depth + 1) as usize;
    match value {
        TokenModel::Ident(name, span) => match JsonSchemaTypes::from_name(name) {
            Some(ty) => if occupied {
                Outcome::stop(
                    DiagnosticKind::DuplicateKey(JsonSchemaKeywords::Items),
                    span,
                    Seq::empty(),
                )
            } else {
                Outcome {
                    result: Ok(
                        bare(ty, Some(Provenance { key: key_span, value: span }), nested, span),
                    ),
                    recoverable: Seq::empty(),
                }
            },
            None => Outcome::stop(DiagnosticKind::UnknownType, span, Seq::empty()),
        },
        TokenModel::Group(delimiter, inner, span) => if delimiter == Delimiter::Brace {
            let block = parse_schema(inner, nested, span);
            if block.result is Ok && occupied {
                Outcome::stop(
                    DiagnosticKind::DuplicateKey(JsonSchemaKeywords::Items),
                    span,
                    block.recoverable,
                )
            } else {
                block
            }
        } else {
            Outcome::stop(DiagnosticKind::ExpectedTypeOrSchema, span, Seq::empty())
        },
        other => Outcome::stop(DiagnosticKind::ExpectedTypeOrSchema, other.span(), Seq::empty()),
    }
}

/// What reading the value of `contains` gives: a schema with a type alone.
///
/// A bare type stands for that schema; a brace block is read and checked as
/// a schema, and only its type is kept. `contains` may be given once:
/// `occupied` says that it was given before.
pub open spec fn contains_child(
    value: TokenModel,
    key_span: Span,
    depth: usize,
    occupied: bool,
) -> Outcome<SchemaModel>
    decreases value, 0int,
{
    let nested = (depth + 1) as usize;
    match value {
        TokenModel::Ident(name, span) => match JsonSchemaTypes::from_name(name) {
            Some(ty) => if occupied {
                Outcome::stop(
                    DiagnosticKind::DuplicateKey(JsonSchemaKeywords::Contains),
                    span,
                    Seq::empty(),
                )
            } else {
                Outcome {
                    result: Ok(
                        bare(ty, Some(Provenance { key: key_span, value: span }), nested, span),
                    ),
                    recoverable: Seq::empty(),
                }
            },
            None => Outcome::stop(DiagnosticKind::UnknownType, span, Seq::empty()),
        },
        TokenModel::Group(delimiter, inner, span) => if delimiter == Delimiter::Brace {
            let block = parse_schema(inner, nested, span);
            match block.result {
                Ok(schema) => if occupied {
                    Outcome::stop(
                        DiagnosticKind::DuplicateKey(JsonSchemaKeywords::Contains),
                        span,
                        block.recoverable,
                    )
                } else {
                    Outcome {
                        result: Ok(bare(schema.ty, schema.ty_span, nested, span)),
                        recoverable: block.recoverable,
                    }
                },
                Err(_) => block,
            }
        } else {
            Outcome::stop(DiagnosticKind::ExpectedTypeOrSchema, span, Seq::empty())
        },
        other => Outcome::stop(DiagnosticKind::ExpectedTypeOrSchema, other.span(), Seq::empty()),
    }
}

/// What reading the value of `properties` gives: the named schemas of the
/// brace block, each one level deeper than `depth`.
pub open spec fn properties_block(value: TokenModel, depth: usize) -> Outcome<Properties>
    decreases value, 0int,
{
    match value {
        TokenModel::Group(delimiter, inner, span) => if delimiter == Delimiter::Brace {
            parse_properties(inner, 0, Seq::empty(), Seq::empty(), depth)
        } else {
            Outcome::stop(DiagnosticKind::ExpectedPropertiesBlock, span, Seq::empty())
        },
        other => Outcome::stop(
            DiagnosticKind::ExpectedPropertiesBlock,
            other.span(),
            Seq::empty(),
        ),
    }
}

/// What reading the rest of a `properties` block gives, from `pos` on, where
/// `entries` holds the properties read so far and `reported` what was
/// reported.
pub open spec fn parse_properties(
    tokens: Seq<TokenModel>,
    pos: int,
    entries: Properties,
    reported: Seq<Diagnostic>,
    depth: usize,
) -> Outcome<Properties>
    decreases tokens, remaining(tokens, pos),
{
    if pos < 0 || pos >= tokens.len() {
        Outcome { result: Ok(entries), recoverable: reported }
    } else if pos > 0 && !tokens[pos].is_punct(',') {
        Outcome::stop(DiagnosticKind::ExpectedComma, tokens[pos].span(), reported)
    } else {
        let start = if pos > 0 {
            pos + 1
        } else {
            pos
        };
        if start >= tokens.len() {
            Outcome { result: Ok(entries), recoverable: reported }
        } else {
            match tokens[start] {
                TokenModel::Str(name, name_span) => if start + 1 >= tokens.len() {
                    Outcome::stop(DiagnosticKind::ExpectedColon, name_span, reported)
                } else if !tokens[start + 1].is_punct(':') {
                    Outcome::stop(
                        DiagnosticKind::ExpectedColon,
                        tokens[start + 1].span(),
                        reported,
                    )
                } else if start + 2 >= tokens.len() {
                    Outcome::stop(
                        DiagnosticKind::ExpectedSchemaBlock,
                        tokens[start + 1].span(),
                        reported,
                    )
                } else {
                    match tokens[start + 2] {
                        TokenModel::Group(delimiter, inner, span) => if delimiter
                            == Delimiter::Brace {
                            let block = parse_schema(inner, (depth + 1) as usize, span);
                            match block.result {
                                Ok(schema) => parse_properties(
                                    tokens,
                                    start + 3,
                                    with_property(entries, name, schema),
                                    reported + block.recoverable,
                                    depth,
                                ),
                                Err(fault) => Outcome {
                                    result: Err(fault),
                                    recoverable: reported + block.recoverable,
                                },
                            }
                        } else {
                            Outcome::stop(DiagnosticKind::ExpectedSchemaBlock, span, reported)
                        },
                        other => Outcome::stop(
                            DiagnosticKind::ExpectedSchemaBlock,
                            other.span(),
                            reported,
                        ),
                    }
                },
                other => Outcome::stop(
                    DiagnosticKind::ExpectedPropertyName,
                    other.span(),
                    reported,
                ),
            }
        }
    }
}

/// The schema that a bare type stands for.
fn bare_schema(ty: JsonSchemaTypes, ty_span: Option<Provenance>, depth: usize, anchor: Span) -> (schema:
    JsonSchema)
    ensures
        schema@ == bare(ty, ty_span, depth, anchor),
{
    let mut schema = JsonSchema::default();
    schema.ty = ty;
    schema.ty_span = ty_span;
    schema.depth = depth;
    schema.current_key_span = anchor;
    schema
}

/// Gives `schema` the name `name` among `entries`.
#[verifier::loop_isolation(false)]
fn insert_property(entries: &mut Vec<(String, JsonSchema)>, name: String, schema: JsonSchema)
    ensures
        final(entries).deep_view() == with_property(old(entries).deep_view(), name@, schema@),
{
    let ghost before = entries.deep_view();
    let mut i: usize = 0;
    while i < entries.len()
        invariant
            i <= entries.len(),
            entries.deep_view() == before,
            forall|j: int| 0 <= j < i ==> (#[trigger] before[j]).0 != name@,
        decreases entries.len() - i,
    {
        assert(before[i as int].0 == entries[i as int].0@);
        if str_eq(entries[i].0.as_str(), name.as_str()) {
            assert(first_named(before, name@, i as int));
            entries.set(i, (name, schema));
            assert(entries.deep_view() =~= before.update(i as int, (name@, schema@)));
            return ;
        }
        i += 1;
    }
    assert forall|k: int| !first_named(before, name@, k) by {}
    entries.push((name, schema));
    assert(entries.deep_view() =~= before.push((name@, schema@)));
}

/// Runs the checks at the end of a level.
fn finish(schema: JsonSchema, sink: &mut Vec<Diagnostic>) -> (closed: Result<
    JsonSchema,
    Diagnostic,
>)
    ensures
        result_model(closed) == checked(schema@).result,
        final(sink)@ == old(sink)@ + checked(schema@).recoverable,
{
    proof {
        lemma_schema_view(schema);
    }
    match &schema.required {
        Some(required) => {
            if schema.properties.is_none() {
                return Err(
                    Diagnostic::new(DiagnosticKind::RequiredWithoutProperties, required.at.value),
                );
            }
        },
        None => {},
    }
    if schema.ty.is_none() {
        return Err(Diagnostic::new(DiagnosticKind::TypeNotSet, schema.current_key_span));
    }
    match check_properties_match_required(&schema) {
        Some(fault) => {
            return Err(fault);
        },
        None => {},
    }
    match validate_keys(&schema, sink) {
        Some(fault) => Err(fault),
        None => Ok(schema),
    }
}

/// Reads the value of `properties`: a brace block of named schemas.
#[verifier::loop_isolation(false)]
fn handle_properties(value: &Token, depth: usize, sink: &mut Vec<Diagnostic>) -> (block: Result<
    Vec<(String, JsonSchema)>,
    Diagnostic,
>)
    requires
        depth < usize::MAX,
    ensures
        result_model(block) == properties_block(value@, depth).result,
        final(sink)@ == old(sink)@ + properties_block(value@, depth).recoverable,
    decreases value, 0int,
{
    let ghost before = sink@;
    assert(sink@ =~= before + Seq::<Diagnostic>::empty());
    let tokens = match value {
        Token::Group(delimiter, inner, span) => {
            proof {
                lemma_group_view(*delimiter, *inner, *span);
            }
            match delimiter {
                Delimiter::Brace => inner,
                _ => {
                    return Err(Diagnostic::new(DiagnosticKind::ExpectedPropertiesBlock, *span));
                },
            }
        },
        other => {
            return Err(Diagnostic::new(DiagnosticKind::ExpectedPropertiesBlock, other.span()));
        },
    };
    let ghost toks = tokens.deep_view();
    let ghost total = parse_properties(toks, 0, Seq::empty(), Seq::empty(), depth);
    let ghost mut reported = Seq::<Diagnostic>::empty();
    let mut entries: Vec<(String, JsonSchema)> = Vec::new();
    assert(entries.deep_view() =~= Seq::<(Seq<char>, SchemaModel)>::empty());
    let mut pos: usize = 0;
    while pos < tokens.len()
        invariant
            pos <= tokens.len(),
            depth < usize::MAX,
            toks == tokens.deep_view(),
            decreases_to!(value => tokens),
            sink@ == before + reported,
            parse_properties(toks, pos as int, entries.deep_view(), reported, depth) == total,
        decreases tokens.len() - pos,
    {
        let mut start = pos;
        if pos > 0 {
            if !tokens[pos].is_punct(',') {
                return Err(Diagnostic::new(DiagnosticKind::ExpectedComma, tokens[pos].span()));
            }
            start = pos + 1;
        }
        if start >= tokens.len() {
            return Ok(entries);
        }
        let (name, name_span) = match &tokens[start] {
            Token::Str(name, span) => (name, *span),
            other => {
                return Err(Diagnostic::new(DiagnosticKind::ExpectedPropertyName, other.span()));
            },
        };
        if start + 1 >= tokens.len() {
            return Err(Diagnostic::new(DiagnosticKind::ExpectedColon, name_span));
        }
        if !tokens[start + 1].is_punct(':') {
            return Err(Diagnostic::new(DiagnosticKind::ExpectedColon, tokens[start + 1].span()));
        }
        if start + 2 >= tokens.len() {
            return Err(
                Diagnostic::new(DiagnosticKind::ExpectedSchemaBlock, tokens[start + 1].span()),
            );
        }
        let (inner, span) = match &tokens[start + 2] {
            Token::Group(delimiter, inner, span) => {
                proof {
                    lemma_group_view(*delimiter, *inner, *span);
                }
                match delimiter {
                    Delimiter::Brace => (inner, *span),
                    _ => {
                        return Err(Diagnostic::new(DiagnosticKind::ExpectedSchemaBlock, *span));
                    },
                }
            },
            other => {
                return Err(Diagnostic::new(DiagnosticKind::ExpectedSchemaBlock, other.span()));
            },
        };
        let ghost block = parse_schema(inner.deep_view(), (depth + 1) as usize, span);
        let parsed = JsonSchema::parse(inner, depth + 1, span, sink);
        proof {
            assert(sink@ =~= before + (reported + block.recoverable));
            reported = reported + block.recoverable;
        }
        match parsed {
            Ok(schema) => {
                insert_property(&mut entries, name.clone(), schema);
            },
            Err(fault) => {
                return Err(fault);
            },
        }
        pos = start + 3;
    }
    Ok(entries)
}

/// Reads the value of `items`: a type or a brace block that holds a schema.
fn handle_items(
    occupied: bool,
    value: &Token,
    key_span: Span,
    depth: usize,
    sink: &mut Vec<Diagnostic>,
) -> (child: Result<JsonSchema, Diagnostic>)
    requires
        depth < usize::MAX,
    ensures
        result_model(child) == items_child(value@, key_span, depth, occupied).result,
        final(sink)@ == old(sink)@ + items_child(value@, key_span, depth, occupied).recoverable,
    decreases value, 0int,
{
    match value {
        Token::Ident(name, span) => {
            let ty = match JsonSchemaTypes::try_from(name.as_str(), *span) {
                Ok(ty) => ty,
                Err(unknown) => {
                    return Err(unknown);
                },
            };
            if occupied {
                return Err(
                    Diagnostic::new(DiagnosticKind::DuplicateKey(JsonSchemaKeywords::Items), *span),
                );
            }
            Ok(bare_schema(ty, Some(Provenance { key: key_span, value: *span }), depth + 1, *span))
        },
        Token::Group(delimiter, inner, span) => {
            proof {
                lemma_group_view(*delimiter, *inner, *span);
            }
            match delimiter {
                Delimiter::Brace => {
                    let parsed = JsonSchema::parse(inner, depth + 1, *span, sink);
                    match parsed {
                        Ok(schema) => {
                            if occupied {
                                Err(
                                    Diagnostic::new(
                                        DiagnosticKind::DuplicateKey(JsonSchemaKeywords::Items),
                                        *span,
                                    ),
                                )
                            } else {
                                Ok(schema)
                            }
                        },
                        Err(fault) => Err(fault),
                    }
                },
                _ => Err(Diagnostic::new(DiagnosticKind::ExpectedTypeOrSchema, *span)),
            }
        },
        other => Err(Diagnostic::new(DiagnosticKind::ExpectedTypeOrSchema, other.span())),
    }
}

/// Reads the value of `contains`: a type, or a brace block that holds a
/// schema of which the type is kept.
fn handle_contains(
    occupied: bool,
    value: &Token,
    key_span: Span,
    depth: usize,
    sink: &mut Vec<Diagnostic>,
) -> (child: Result<JsonSchema, Diagnostic>)
    requires
        depth < usize::MAX,
    ensures
        result_model(child) == contains_child(value@, key_span, depth, occupied).result,
        final(sink)@ == old(sink)@ + contains_child(
            value@,
            key_span,
            depth,
            occupied,
        ).recoverable,
    decreases value, 0int,
{
    assert(sink@ =~= sink@ + Seq::<Diagnostic>::empty());
    match value {
        Token::Ident(name, span) => {
            let ty = match JsonSchemaTypes::try_from(name.as_str(), *span) {
                Ok(ty) => ty,
                Err(unknown) => {
                    return Err(unknown);
                },
            };
            if occupied {
                return Err(
                    Diagnostic::new(
                        DiagnosticKind::DuplicateKey(JsonSchemaKeywords::Contains),
                        *span,
                    ),
                );
            }
            Ok(bare_schema(ty, Some(Provenance { key: key_span, value: *span }), depth + 1, *span))
        },
        Token::Group(delimiter, inner, span) => {
            proof {
                lemma_group_view(*delimiter, *inner, *span);
            }
            match delimiter {
                Delimiter::Brace => {
                    let parsed = JsonSchema::parse(inner, depth + 1, *span, sink);
                    match parsed {
                        Ok(schema) => {
                            if occupied {
                                Err(
                                    Diagnostic::new(
                                        DiagnosticKind::DuplicateKey(
                                            JsonSchemaKeywords::Contains,
                                        ),
                                        *span,
                                    ),
                                )
                            } else {
                                Ok(bare_schema(schema.ty, schema.ty_span, depth + 1, *span))
                            }
                        },
                        Err(fault) => Err(fault),
                    }
                },
                _ => Err(Diagnostic::new(DiagnosticKind::ExpectedTypeOrSchema, *span)),
            }
        },
        other => Err(Diagnostic::new(DiagnosticKind::ExpectedTypeOrSchema, other.span())),
    }
}

/// Reads the field that starts at `start` and adds it to `schema`.
fn read_field(tokens: &Vec<Token>, start: usize, schema: JsonSchema, sink: &mut Vec<Diagnostic>) -> (read:
    Result<JsonSchema, Diagnostic>)
    requires
        start < tokens.len(),
        schema.depth < usize::MAX,
    ensures
        result_model(read) == field_at(tokens.deep_view(), start as int, schema@).result,
        final(sink)@ == old(sink)@ + field_at(
            tokens.deep_view(),
            start as int,
            schema@,
        ).recoverable,
        read matches Ok(next) ==> next.depth == schema.depth && start + 3 <= tokens.len(),
    decreases tokens, 0int,
{
    let ghost toks = tokens.deep_view();
    let depth = schema.depth;
    assert(sink@ =~= sink@ + Seq::<Diagnostic>::empty());
    let (key, key_span) = match &tokens[start] {
        Token::Ident(name, span) => (name, *span),
        other => {
            return Err(Diagnostic::new(DiagnosticKind::ExpectedKey, other.span()));
        },
    };
    if start + 1 >= tokens.len() {
        return Err(Diagnostic::new(DiagnosticKind::ExpectedColon, key_span));
    }
    if !tokens[start + 1].is_punct(':') {
        return Err(Diagnostic::new(DiagnosticKind::ExpectedColon, tokens[start + 1].span()));
    }
    if start + 2 >= tokens.len() {
        return Err(Diagnostic::new(DiagnosticKind::ExpectedValue, tokens[start + 1].span()));
    }
    assert(toks[start + 2] == tokens[start + 2]@);
    let value = &tokens[start + 2];
    let at = Provenance { key: key_span, value: value.span() };
    let mut schema = schema;
    if str_eq(key.as_str(), "properties") {
        match handle_properties(value, depth, sink) {
            Ok(entries) => {
                schema.properties = Some(Located { value: entries, at });
                proof {
                    lemma_schema_view(schema);
                }
                Ok(schema)
            },
            Err(fault) => Err(fault),
        }
    } else if str_eq(key.as_str(), "items") {
        match handle_items(schema.items.is_some(), value, key_span, depth, sink) {
            Ok(element) => {
                schema.items = Some(Located { value: Box::new(element), at });
                Ok(schema)
            },
            Err(fault) => Err(fault),
        }
    } else if str_eq(key.as_str(), "contains") {
        match handle_contains(schema.contains.is_some(), value, key_span, depth, sink) {
            Ok(element) => {
                schema.contains = Some(Located { value: Box::new(element), at });
                Ok(schema)
            },
            Err(fault) => Err(fault),
        }
    } else {
        let literal = match JsonSchemaValues::try_from(value) {
            Ok(literal) => literal,
            Err(fault) => {
                return Err(fault);
            },
        };
        match JsonSchema::try_from(key.as_str(), key_span, literal, value.span()) {
            Ok(field) => Ok(schema.merge(field)),
            Err(fault) => Err(fault),
        }
    }
}

impl JsonSchema {
    /// Reads the tokens of a schema block and checks the schema.
    ///
    /// `depth` is 1 for a root and one more for each block entered, and
    /// `anchor` is the place of the block. What is reported without stopping
    /// is added to `sink`, for this level and the levels inside it, also when
    /// the reading is stopped later on.
    pub fn parse(tokens: &Vec<Token>, depth: usize, anchor: Span, sink: &mut Vec<Diagnostic>) -> (parsed:
        Result<JsonSchema, Diagnostic>)
        ensures
            result_model(parsed) == parse_schema(tokens.deep_view(), depth, anchor).result,
            final(sink)@ == old(sink)@ + parse_schema(tokens.deep_view(), depth, anchor).recoverable,
        decreases tokens, 1int,
    {
        let ghost before = sink@;
        if depth == usize::MAX {
            return Err(Diagnostic::new(DiagnosticKind::NestingTooDeep, anchor));
        }
        let ghost toks = tokens.deep_view();
        let ghost total = parse_schema(toks, depth, anchor);
        let ghost mut reported = Seq::<Diagnostic>::empty();
        let mut schema = JsonSchema::default();
        schema.depth = depth;
        schema.current_key_span = anchor;
        let mut pos: usize = 0;
        while pos < tokens.len()
            invariant
                pos <= tokens.len(),
                depth < usize::MAX,
                schema.depth == depth,
                toks == tokens.deep_view(),
                before == old(sink)@,
                sink@ == before + reported,
                total == parse_schema(toks, depth, anchor),
                parse_fields(toks, pos as int, schema@, reported) == total,
            decreases tokens.len() - pos,
        {
            let mut start = pos;
            if pos > 0 {
                if !tokens[pos].is_punct(',') {
                    return Err(Diagnostic::new(DiagnosticKind::ExpectedComma, tokens[pos].span()));
                }
                start = pos + 1;
            }
            if start >= tokens.len() {
                return finish(schema, sink);
            }
            let ghost field = field_at(toks, start as int, schema@);
            let read = read_field(tokens, start, schema, sink);
            proof {
                reported = reported + field.recoverable;
            }
            match read {
                Ok(next) => {
                    schema = next;
                },
                Err(fault) => {
                    return Err(fault);
                },
            }
            pos = start + 3;
        }
        finish(schema, sink)
    }
}

} // verus!
