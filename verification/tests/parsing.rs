use schema2struct::diagnostics::{Diagnostic, DiagnosticKind, Provenance, Span};
use schema2struct::models::{JsonSchema, JsonSchemaKeywords, JsonSchemaTypes, JsonSchemaValues};
use schema2struct::parse_and_validate;
use schema2struct::tokens::{Delimiter, Token};

fn at(n: usize) -> Span {
    Span { start: n, end: n + 1 }
}

fn ident(name: &str, n: usize) -> Token {
    Token::Ident(name.to_string(), at(n))
}

fn colon(n: usize) -> Token {
    Token::Punct(':', at(n))
}

fn comma(n: usize) -> Token {
    Token::Punct(',', at(n))
}

fn text(value: &str, n: usize) -> Token {
    Token::Str(value.to_string(), at(n))
}

fn number(value: i64, n: usize) -> Token {
    Token::Int(Some(value), at(n))
}

fn braces(tokens: Vec<Token>, n: usize) -> Token {
    Token::Group(Delimiter::Brace, tokens, at(n))
}

fn brackets(tokens: Vec<Token>, n: usize) -> Token {
    Token::Group(Delimiter::Bracket, tokens, at(n))
}

/// `type: <name>` at positions n, n + 1, n + 2.
fn type_field(name: &str, n: usize) -> Vec<Token> {
    vec![ident("type", n), colon(n + 1), ident(name, n + 2)]
}

fn nested(tokens: &Vec<Token>) -> (Result<JsonSchema, Diagnostic>, Vec<Diagnostic>) {
    let mut sink = Vec::new();
    let result = JsonSchema::parse(tokens, 2, at(1000), &mut sink);
    (result, sink)
}

fn fatal_kind(tokens: &Vec<Token>) -> DiagnosticKind {
    let (result, _) = nested(tokens);
    result.unwrap_err().kind
}

/// `type: object, struct: "User", properties: {"a": {type: string}, "b": {type: number}}`
fn object_with_two_properties() -> Vec<Token> {
    vec![
        ident("type", 0),
        colon(1),
        ident("object", 2),
        comma(3),
        ident("struct", 4),
        colon(5),
        text("User", 6),
        comma(7),
        ident("properties", 8),
        colon(9),
        braces(
            vec![
                text("a", 10),
                colon(11),
                braces(type_field("string", 12), 15),
                comma(16),
                text("b", 17),
                colon(18),
                braces(type_field("number", 19), 22),
            ],
            23,
        ),
    ]
}

fn with_required(names: Vec<&str>) -> Vec<Token> {
    let mut tokens = object_with_two_properties();
    tokens.push(comma(30));
    tokens.push(ident("required", 31));
    tokens.push(colon(32));
    let mut elements = Vec::new();
    for (i, name) in names.iter().enumerate() {
        if i > 0 {
            elements.push(comma(40 + 2 * i));
        }
        elements.push(text(name, 41 + 2 * i));
    }
    tokens.push(brackets(elements, 33));
    tokens
}

#[test]
fn valid_root_is_accepted_without_diagnostics() {
    let parsed = parse_and_validate(&object_with_two_properties(), at(99));
    assert!(parsed.recoverable.is_empty());
    let schema = parsed.result.unwrap();
    assert_eq!(schema.ty, JsonSchemaTypes::Object);
    assert_eq!(schema.depth, 1);
    assert_eq!(schema.current_key_span, at(99));
    assert_eq!(schema.struct_name.as_ref().unwrap().value, "User");
    let properties = schema.properties.unwrap();
    assert_eq!(properties.at, Provenance { key: at(8), value: at(23) });
    assert_eq!(properties.value.len(), 2);
    assert_eq!(properties.value[0].0, "a");
    assert_eq!(properties.value[0].1.ty, JsonSchemaTypes::String);
    assert_eq!(properties.value[0].1.depth, 2);
    assert_eq!(properties.value[0].1.current_key_span, at(15));
    assert_eq!(properties.value[1].0, "b");
    assert_eq!(properties.value[1].1.ty, JsonSchemaTypes::Number);
}

#[test]
fn required_that_names_every_property_validates() {
    let parsed = parse_and_validate(&with_required(vec!["a", "b"]), at(99));
    assert!(parsed.recoverable.is_empty());
    let schema = parsed.result.unwrap();
    let required = schema.required.unwrap();
    assert_eq!(required.value, vec!["a".to_string(), "b".to_string()]);
    assert_eq!(required.at, Provenance { key: at(31), value: at(33) });
}

#[test]
fn required_in_another_order_validates() {
    let parsed = parse_and_validate(&with_required(vec!["b", "a"]), at(99));
    assert!(parsed.result.is_ok());
}

#[test]
fn required_of_another_length_is_fatal() {
    let parsed = parse_and_validate(&with_required(vec!["a"]), at(99));
    assert_eq!(
        parsed.result,
        Err(Diagnostic { kind: DiagnosticKind::RequiredCountMismatch, span: at(33) })
    );
}

#[test]
fn required_that_misses_a_property_is_fatal() {
    let parsed = parse_and_validate(&with_required(vec!["a", "c"]), at(99));
    assert_eq!(
        parsed.result,
        Err(Diagnostic { kind: DiagnosticKind::RequiredMembershipMismatch, span: at(23) })
    );
}

#[test]
fn required_without_properties_is_fatal() {
    let mut tokens = type_field("object", 0);
    tokens.extend(vec![comma(3), ident("required", 4), colon(5), brackets(vec![text("a", 7)], 6)]);
    let (result, sink) = nested(&tokens);
    assert_eq!(
        result,
        Err(Diagnostic { kind: DiagnosticKind::RequiredWithoutProperties, span: at(6) })
    );
    assert!(sink.is_empty());
}

#[test]
fn root_without_name_is_fatal() {
    let parsed = parse_and_validate(&type_field("object", 0), at(99));
    assert_eq!(
        parsed.result,
        Err(Diagnostic { kind: DiagnosticKind::MissingRootName, span: at(99) })
    );
}

#[test]
fn root_with_a_title_alone_is_fatal() {
    let mut tokens = type_field("object", 0);
    tokens.extend(vec![comma(3), ident("title", 4), colon(5), text("User", 6)]);
    let parsed = parse_and_validate(&tokens, at(99));
    assert_eq!(parsed.result.unwrap_err().kind, DiagnosticKind::MissingRootName);
}

#[test]
fn nested_level_without_name_is_accepted() {
    let (result, sink) = nested(&type_field("object", 0));
    let schema = result.unwrap();
    assert_eq!(schema.depth, 2);
    assert!(schema.struct_name.is_none());
    assert!(sink.is_empty());
}

#[test]
fn root_named_key_is_fatal_for_an_object() {
    let mut tokens = type_field("object", 0);
    tokens.extend(vec![comma(3), ident("struct", 4), colon(5), text("key", 6)]);
    let parsed = parse_and_validate(&tokens, at(99));
    assert_eq!(
        parsed.result,
        Err(Diagnostic { kind: DiagnosticKind::ReservedRootName, span: at(6) })
    );
}

#[test]
fn root_named_key_is_fatal_for_a_string() {
    let mut tokens = type_field("string", 0);
    tokens.extend(vec![comma(3), ident("struct", 4), colon(5), text("key", 6)]);
    let parsed = parse_and_validate(&tokens, at(99));
    assert_eq!(
        parsed.result,
        Err(Diagnostic { kind: DiagnosticKind::ReservedRootName, span: at(6) })
    );
    assert_eq!(
        parsed.recoverable,
        vec![Diagnostic { kind: DiagnosticKind::StructNameOnNonObject, span: at(4) }]
    );
}

#[test]
fn nested_level_named_key_is_accepted() {
    let mut tokens = type_field("object", 0);
    tokens.extend(vec![comma(3), ident("struct", 4), colon(5), text("key", 6)]);
    let (result, _) = nested(&tokens);
    assert!(result.is_ok());
}

#[test]
fn misplaced_key_is_reported_and_not_fatal() {
    let mut tokens = type_field("string", 0);
    tokens.extend(vec![comma(3), ident("minimum", 4), colon(5), number(1, 6)]);
    let (result, sink) = nested(&tokens);
    assert_eq!(
        sink,
        vec![Diagnostic {
            kind: DiagnosticKind::MisusedKey(JsonSchemaKeywords::Minimum),
            span: at(4)
        }]
    );
    let schema = result.unwrap();
    assert_eq!(schema.ty, JsonSchemaTypes::String);
    assert_eq!(schema.minimum.unwrap().value, 1);
}

#[test]
fn misplaced_keys_are_reported_in_the_order_of_the_checks() {
    // type: number, items: string, pattern: "x", required: [], properties: {}
    let mut tokens = type_field("number", 0);
    tokens.extend(vec![
        comma(3),
        ident("items", 4),
        colon(5),
        ident("string", 6),
        comma(7),
        ident("pattern", 8),
        colon(9),
        text("x", 10),
        comma(11),
        ident("required", 12),
        colon(13),
        brackets(vec![], 14),
        comma(15),
        ident("properties", 16),
        colon(17),
        braces(vec![], 18),
        comma(19),
        ident("struct", 20),
        colon(21),
        text("N", 22),
    ]);
    let (result, sink) = nested(&tokens);
    assert!(result.is_ok());
    let kinds: Vec<DiagnosticKind> = sink.iter().map(|d| d.kind).collect();
    assert_eq!(
        kinds,
        vec![
            DiagnosticKind::MisusedKey(JsonSchemaKeywords::Pattern),
            DiagnosticKind::MisusedKey(JsonSchemaKeywords::Items),
            DiagnosticKind::MisusedKey(JsonSchemaKeywords::Required),
            DiagnosticKind::MisusedKey(JsonSchemaKeywords::Properties),
            DiagnosticKind::StructNameOnNonObject,
        ]
    );
    let spans: Vec<Span> = sink.iter().map(|d| d.span).collect();
    assert_eq!(spans, vec![at(8), at(4), at(12), at(16), at(20)]);
}

#[test]
fn diagnostics_of_nested_levels_come_first() {
    // type: array, minimum: 1, items: { type: string, maximum: 2 }
    let mut tokens = type_field("array", 0);
    let mut inner = type_field("string", 20);
    inner.extend(vec![comma(23), ident("maximum", 24), colon(25), number(2, 26)]);
    tokens.extend(vec![
        comma(3),
        ident("minimum", 4),
        colon(5),
        number(1, 6),
        comma(7),
        ident("items", 8),
        colon(9),
        braces(inner, 10),
    ]);
    let (result, sink) = nested(&tokens);
    assert_eq!(
        sink,
        vec![
            Diagnostic {
                kind: DiagnosticKind::MisusedKey(JsonSchemaKeywords::Maximum),
                span: at(24)
            },
            Diagnostic {
                kind: DiagnosticKind::MisusedKey(JsonSchemaKeywords::Minimum),
                span: at(4)
            },
        ]
    );
    let schema = result.unwrap();
    let items = schema.items.unwrap();
    assert_eq!(items.at, Provenance { key: at(8), value: at(10) });
    assert_eq!(items.value.ty, JsonSchemaTypes::String);
    assert_eq!(items.value.depth, 3);
    assert_eq!(items.value.maximum.as_ref().unwrap().value, 2);
}

#[test]
fn recoverable_diagnostics_survive_a_later_fatal_one() {
    // properties: { "a": { type: string, minimum: 1 } }  and no type
    let mut inner = type_field("string", 20);
    inner.extend(vec![comma(23), ident("minimum", 24), colon(25), number(1, 26)]);
    let tokens = vec![
        ident("properties", 0),
        colon(1),
        braces(vec![text("a", 2), colon(3), braces(inner, 4)], 5),
    ];
    let (result, sink) = nested(&tokens);
    assert_eq!(result, Err(Diagnostic { kind: DiagnosticKind::TypeNotSet, span: at(1000) }));
    assert_eq!(sink.len(), 1);
    assert_eq!(sink[0].kind, DiagnosticKind::MisusedKey(JsonSchemaKeywords::Minimum));
}

#[test]
fn first_occurrence_of_a_keyword_wins() {
    // type: string, min_length: 3, type: number, min_length: 7
    let mut tokens = type_field("string", 0);
    tokens.extend(vec![comma(3), ident("min_length", 4), colon(5), number(3, 6), comma(7)]);
    tokens.extend(type_field("number", 8));
    tokens.extend(vec![comma(11), ident("min_length", 12), colon(13), number(7, 14)]);
    let (result, sink) = nested(&tokens);
    assert!(sink.is_empty());
    let schema = result.unwrap();
    assert_eq!(schema.ty, JsonSchemaTypes::String);
    assert_eq!(schema.ty_span, Some(Provenance { key: at(0), value: at(2) }));
    let min_length = schema.min_length.unwrap();
    assert_eq!(min_length.value, 3);
    assert_eq!(min_length.at, Provenance { key: at(4), value: at(6) });
}

#[test]
fn later_occurrence_must_still_have_the_right_shape() {
    let mut tokens = type_field("number", 0);
    tokens.extend(vec![comma(3), ident("minimum", 4), colon(5), number(3, 6)]);
    tokens.extend(vec![comma(7), ident("minimum", 8), colon(9), text("x", 10)]);
    let (result, _) = nested(&tokens);
    assert_eq!(
        result,
        Err(Diagnostic {
            kind: DiagnosticKind::WrongValueShape(JsonSchemaKeywords::Minimum),
            span: at(10)
        })
    );
}

#[test]
fn second_properties_block_replaces_the_first() {
    let mut tokens = type_field("object", 0);
    tokens.extend(vec![
        comma(3),
        ident("properties", 4),
        colon(5),
        braces(vec![text("a", 6), colon(7), braces(type_field("string", 8), 11)], 12),
        comma(13),
        ident("properties", 14),
        colon(15),
        braces(vec![text("b", 16), colon(17), braces(type_field("number", 18), 21)], 22),
    ]);
    let (result, _) = nested(&tokens);
    let properties = result.unwrap().properties.unwrap();
    assert_eq!(properties.value.len(), 1);
    assert_eq!(properties.value[0].0, "b");
    assert_eq!(properties.at, Provenance { key: at(14), value: at(22) });
}

#[test]
fn repeated_property_keeps_its_place_and_takes_the_last_schema() {
    let mut tokens = type_field("object", 0);
    tokens.extend(vec![
        comma(3),
        ident("properties", 4),
        colon(5),
        braces(
            vec![
                text("a", 6),
                colon(7),
                braces(type_field("string", 8), 11),
                comma(12),
                text("b", 13),
                colon(14),
                braces(type_field("string", 15), 18),
                comma(19),
                text("a", 20),
                colon(21),
                braces(type_field("number", 22), 25),
                comma(26),
            ],
            27,
        ),
    ]);
    let (result, _) = nested(&tokens);
    let properties = result.unwrap().properties.unwrap().value;
    assert_eq!(properties.len(), 2);
    assert_eq!(properties[0].0, "a");
    assert_eq!(properties[0].1.ty, JsonSchemaTypes::Number);
    assert_eq!(properties[1].0, "b");
}

#[test]
fn bare_items_type_stands_for_a_schema_with_that_type() {
    let mut tokens = type_field("array", 0);
    tokens.extend(vec![comma(3), ident("items", 4), colon(5), ident("number", 6)]);
    let (result, sink) = nested(&tokens);
    assert!(sink.is_empty());
    let items = result.unwrap().items.unwrap();
    assert_eq!(items.at, Provenance { key: at(4), value: at(6) });
    assert_eq!(items.value.ty, JsonSchemaTypes::Number);
    assert_eq!(items.value.ty_span, Some(Provenance { key: at(4), value: at(6) }));
    assert_eq!(items.value.depth, 3);
    assert_eq!(items.value.current_key_span, at(6));
    assert!(items.value.minimum.is_none());
}

#[test]
fn contains_block_is_reduced_to_its_type() {
    let mut inner = type_field("number", 20);
    inner.extend(vec![comma(23), ident("minimum", 24), colon(25), number(2, 26)]);
    let mut tokens = type_field("array", 0);
    tokens.extend(vec![comma(3), ident("contains", 4), colon(5), braces(inner, 6)]);
    let (result, _) = nested(&tokens);
    let contains = result.unwrap().contains.unwrap();
    assert_eq!(contains.value.ty, JsonSchemaTypes::Number);
    assert_eq!(contains.value.ty_span, Some(Provenance { key: at(20), value: at(22) }));
    assert!(contains.value.minimum.is_none());
    assert_eq!(contains.value.depth, 3);
}

#[test]
fn second_items_is_fatal() {
    let mut tokens = type_field("array", 0);
    tokens.extend(vec![comma(3), ident("items", 4), colon(5), ident("number", 6)]);
    tokens.extend(vec![comma(7), ident("items", 8), colon(9), ident("string", 10)]);
    assert_eq!(
        nested(&tokens).0,
        Err(Diagnostic {
            kind: DiagnosticKind::DuplicateKey(JsonSchemaKeywords::Items),
            span: at(10)
        })
    );
}

#[test]
fn second_contains_is_fatal() {
    let mut tokens = type_field("array", 0);
    tokens.extend(vec![comma(3), ident("contains", 4), colon(5), ident("number", 6)]);
    tokens.extend(vec![
        comma(7),
        ident("contains", 8),
        colon(9),
        braces(type_field("string", 10), 13),
    ]);
    assert_eq!(
        nested(&tokens).0,
        Err(Diagnostic {
            kind: DiagnosticKind::DuplicateKey(JsonSchemaKeywords::Contains),
            span: at(13)
        })
    );
}

#[test]
fn trailing_comma_is_tolerated_once() {
    let mut tokens = type_field("string", 0);
    tokens.push(comma(3));
    assert!(nested(&tokens).0.is_ok());
    tokens.push(comma(4));
    assert_eq!(
        nested(&tokens).0,
        Err(Diagnostic { kind: DiagnosticKind::ExpectedKey, span: at(4) })
    );
}

#[test]
fn empty_block_has_no_type() {
    assert_eq!(
        nested(&vec![]).0,
        Err(Diagnostic { kind: DiagnosticKind::TypeNotSet, span: at(1000) })
    );
}

#[test]
fn leading_comma_is_no_key() {
    let mut tokens = vec![comma(0)];
    tokens.extend(type_field("string", 1));
    assert_eq!(fatal_kind(&tokens), DiagnosticKind::ExpectedKey);
}

#[test]
fn fields_must_be_separated_by_a_comma() {
    let mut tokens = type_field("string", 0);
    tokens.extend(vec![ident("pattern", 3), colon(4), text("x", 5)]);
    assert_eq!(
        nested(&tokens).0,
        Err(Diagnostic { kind: DiagnosticKind::ExpectedComma, span: at(3) })
    );
}

#[test]
fn key_must_be_followed_by_a_colon() {
    assert_eq!(
        nested(&vec![ident("type", 0)]).0,
        Err(Diagnostic { kind: DiagnosticKind::ExpectedColon, span: at(0) })
    );
    assert_eq!(
        nested(&vec![ident("type", 0), ident("string", 1)]).0,
        Err(Diagnostic { kind: DiagnosticKind::ExpectedColon, span: at(1) })
    );
}

#[test]
fn colon_must_be_followed_by_a_value() {
    assert_eq!(
        nested(&vec![ident("type", 0), colon(1)]).0,
        Err(Diagnostic { kind: DiagnosticKind::ExpectedValue, span: at(1) })
    );
    assert_eq!(
        nested(&vec![ident("type", 0), colon(1), Token::Other(at(2))]).0,
        Err(Diagnostic { kind: DiagnosticKind::ExpectedValue, span: at(2) })
    );
    assert_eq!(
        nested(&vec![ident("type", 0), colon(1), Token::Punct('-', at(2)), number(1, 3)]).0,
        Err(Diagnostic { kind: DiagnosticKind::ExpectedValue, span: at(2) })
    );
}

#[test]
fn unknown_keyword_is_fatal() {
    assert_eq!(
        nested(&vec![ident("kind", 0), colon(1), ident("string", 2)]).0,
        Err(Diagnostic { kind: DiagnosticKind::UnknownKeyword, span: at(0) })
    );
}

#[test]
fn unknown_type_is_fatal() {
    assert_eq!(
        nested(&type_field("integer", 0)).0,
        Err(Diagnostic { kind: DiagnosticKind::UnknownType, span: at(2) })
    );
    let mut tokens = type_field("array", 0);
    tokens.extend(vec![comma(3), ident("items", 4), colon(5), ident("integer", 6)]);
    assert_eq!(
        nested(&tokens).0,
        Err(Diagnostic { kind: DiagnosticKind::UnknownType, span: at(6) })
    );
}

#[test]
fn unknown_format_is_fatal() {
    let mut tokens = type_field("string", 0);
    tokens.extend(vec![comma(3), ident("format", 4), colon(5), ident("phone", 6)]);
    assert_eq!(
        nested(&tokens).0,
        Err(Diagnostic { kind: DiagnosticKind::UnknownFormat, span: at(6) })
    );
}

#[test]
fn properties_needs_a_brace_block() {
    let tokens = vec![ident("properties", 0), colon(1), text("a", 2)];
    assert_eq!(
        nested(&tokens).0,
        Err(Diagnostic { kind: DiagnosticKind::ExpectedPropertiesBlock, span: at(2) })
    );
    let tokens = vec![ident("properties", 0), colon(1), brackets(vec![], 2)];
    assert_eq!(fatal_kind(&tokens), DiagnosticKind::ExpectedPropertiesBlock);
}

#[test]
fn property_needs_a_string_name() {
    let tokens = vec![
        ident("properties", 0),
        colon(1),
        braces(vec![ident("a", 2), colon(3), braces(type_field("string", 4), 7)], 8),
    ];
    assert_eq!(
        nested(&tokens).0,
        Err(Diagnostic { kind: DiagnosticKind::ExpectedPropertyName, span: at(2) })
    );
}

#[test]
fn property_needs_a_schema_block() {
    let tokens =
        vec![ident("properties", 0), colon(1), braces(vec![text("a", 2), colon(3), ident("string", 4)], 8)];
    assert_eq!(
        nested(&tokens).0,
        Err(Diagnostic { kind: DiagnosticKind::ExpectedSchemaBlock, span: at(4) })
    );
    let tokens = vec![ident("properties", 0), colon(1), braces(vec![text("a", 2), colon(3)], 8)];
    assert_eq!(
        nested(&tokens).0,
        Err(Diagnostic { kind: DiagnosticKind::ExpectedSchemaBlock, span: at(3) })
    );
    let tokens = vec![ident("properties", 0), colon(1), braces(vec![text("a", 2)], 8)];
    assert_eq!(
        nested(&tokens).0,
        Err(Diagnostic { kind: DiagnosticKind::ExpectedColon, span: at(2) })
    );
}

#[test]
fn properties_must_be_separated_by_a_comma() {
    let tokens = vec![
        ident("properties", 0),
        colon(1),
        braces(
            vec![
                text("a", 2),
                colon(3),
                braces(type_field("string", 4), 7),
                text("b", 8),
                colon(9),
                braces(type_field("string", 10), 13),
            ],
            14,
        ),
    ];
    assert_eq!(
        nested(&tokens).0,
        Err(Diagnostic { kind: DiagnosticKind::ExpectedComma, span: at(8) })
    );
}

#[test]
fn fatal_diagnostic_of_a_property_stops_the_whole_reading() {
    let tokens = vec![
        ident("properties", 0),
        colon(1),
        braces(vec![text("a", 2), colon(3), braces(vec![], 7)], 8),
        comma(9),
        ident("kind", 10),
    ];
    assert_eq!(
        nested(&tokens).0,
        Err(Diagnostic { kind: DiagnosticKind::TypeNotSet, span: at(7) })
    );
}

#[test]
fn items_needs_a_type_or_a_block() {
    let mut tokens = type_field("array", 0);
    tokens.extend(vec![comma(3), ident("items", 4), colon(5), number(3, 6)]);
    assert_eq!(
        nested(&tokens).0,
        Err(Diagnostic { kind: DiagnosticKind::ExpectedTypeOrSchema, span: at(6) })
    );
    let mut tokens = type_field("array", 0);
    tokens.extend(vec![comma(3), ident("contains", 4), colon(5), brackets(vec![], 6)]);
    assert_eq!(fatal_kind(&tokens), DiagnosticKind::ExpectedTypeOrSchema);
}

#[test]
fn block_at_the_greatest_depth_is_refused() {
    let mut sink = Vec::new();
    let result = JsonSchema::parse(&type_field("string", 0), usize::MAX, at(5), &mut sink);
    assert_eq!(result, Err(Diagnostic { kind: DiagnosticKind::NestingTooDeep, span: at(5) }));
    let mut tokens = type_field("array", 0);
    tokens.extend(vec![
        comma(3),
        ident("items", 4),
        colon(5),
        braces(type_field("string", 6), 9),
    ]);
    let result = JsonSchema::parse(&tokens, usize::MAX - 1, at(5), &mut sink);
    assert_eq!(result, Err(Diagnostic { kind: DiagnosticKind::NestingTooDeep, span: at(9) }));
}

#[test]
fn sink_keeps_what_it_held() {
    let mut sink = vec![Diagnostic { kind: DiagnosticKind::StructNameOnNonObject, span: at(77) }];
    let mut tokens = type_field("string", 0);
    tokens.extend(vec![comma(3), ident("minimum", 4), colon(5), number(1, 6)]);
    let result = JsonSchema::parse(&tokens, 2, at(5), &mut sink);
    assert!(result.is_ok());
    assert_eq!(sink.len(), 2);
    assert_eq!(sink[0].span, at(77));
    assert_eq!(sink[1].span, at(4));
}

#[test]
fn every_scalar_keyword_is_stored_with_its_provenance() {
    let mut tokens = type_field("string", 0);
    tokens.extend(vec![
        comma(3),
        ident("title", 4),
        colon(5),
        text("T", 6),
        comma(7),
        ident("description", 8),
        colon(9),
        text("D", 10),
        comma(11),
        ident("default", 12),
        colon(13),
        text("d", 14),
        comma(15),
        ident("examples", 16),
        colon(17),
        brackets(vec![text("x", 18), comma(19), text("y", 20), comma(21)], 22),
        comma(23),
        ident("enum", 24),
        colon(25),
        brackets(vec![text("x", 26), comma(27), number(12, 28), comma(29), ident("true", 30)], 31),
        comma(32),
        ident("const", 33),
        colon(34),
        Token::Char('c', at(35)),
        comma(36),
        ident("format", 37),
        colon(38),
        ident("email", 39),
        comma(40),
        ident("max_length", 41),
        colon(42),
        number(9, 43),
    ]);
    let (result, sink) = nested(&tokens);
    assert!(sink.is_empty());
    let schema = result.unwrap();
    assert_eq!(schema.title.unwrap().value, "T");
    assert_eq!(schema.description.unwrap().value, "D");
    assert_eq!(schema.default.unwrap().value, JsonSchemaValues::Str("d".to_string()));
    let examples = schema.examples.unwrap();
    assert_eq!(examples.value, vec!["x".to_string(), "y".to_string()]);
    assert_eq!(examples.at, Provenance { key: at(16), value: at(22) });
    assert_eq!(
        schema.enum_values.unwrap().value,
        vec![
            JsonSchemaValues::Str("x".to_string()),
            JsonSchemaValues::Number(12),
            JsonSchemaValues::Bool(true)
        ]
    );
    assert_eq!(schema.const_value.unwrap().value, JsonSchemaValues::Char('c'));
    assert_eq!(schema.format.unwrap().value, schema2struct::models::Formats::Email);
    assert_eq!(schema.max_length.unwrap().value, 9);
}
