use schema2struct::diagnostics::{Diagnostic, DiagnosticKind, Located, Provenance, Span};
use schema2struct::generator::{
    generate_structs, synthesized_name, Declaration, ElementType, Field, FieldType,
    JsonMacroInput, Sample,
};
use schema2struct::models::{JsonSchema, JsonSchemaKeywords, JsonSchemaTypes};
use schema2struct::tokens::{Delimiter, Token};
use schema2struct::{constant_for, generate, get_serde_const, schema2struct};

fn here() -> Provenance {
    Provenance { key: Span { start: 0, end: 1 }, value: Span { start: 2, end: 3 } }
}

fn located<T>(value: T) -> Option<Located<T>> {
    Some(Located { value, at: here() })
}

fn typed(ty: JsonSchemaTypes) -> JsonSchema {
    JsonSchema { ty, ty_span: Some(here()), depth: 2, ..JsonSchema::default() }
}

fn object(properties: Vec<(&str, JsonSchema)>) -> JsonSchema {
    let mut schema = typed(JsonSchemaTypes::Object);
    schema.properties =
        located(properties.into_iter().map(|(name, child)| (name.to_string(), child)).collect());
    schema
}

fn array_of(items: JsonSchema) -> JsonSchema {
    let mut schema = typed(JsonSchemaTypes::Array);
    schema.items = located(Box::new(items));
    schema
}

fn named(mut schema: JsonSchema, name: &str) -> JsonSchema {
    schema.struct_name = located(name.to_string());
    schema
}

fn field(name: &str, ty: FieldType, alias: &str) -> Field {
    Field { name: name.to_string(), ty, alias: alias.to_string() }
}

fn input(content: Sample) -> JsonMacroInput {
    JsonMacroInput { struct_name: "Root".to_string(), content }
}

#[test]
fn sample_of_an_object_has_one_entry_for_each_property() {
    let schema = object(vec![("age", typed(JsonSchemaTypes::Number))]);
    assert_eq!(
        schema.to_json_sample(),
        Sample::Object(None, vec![("age".to_string(), Sample::Number(0))])
    );
}

#[test]
fn sample_of_an_array_holds_the_sample_of_its_items() {
    let schema = array_of(typed(JsonSchemaTypes::String));
    assert_eq!(schema.to_json_sample(), Sample::Array(vec![Sample::Text(String::new())]));
}

#[test]
fn sample_of_an_array_without_items_is_empty() {
    assert_eq!(typed(JsonSchemaTypes::Array).to_json_sample(), Sample::Array(vec![]));
}

#[test]
fn sample_of_the_scalar_types() {
    assert_eq!(typed(JsonSchemaTypes::String).to_json_sample(), Sample::Text(String::new()));
    assert_eq!(typed(JsonSchemaTypes::Number).to_json_sample(), Sample::Number(0));
    assert_eq!(JsonSchema::default().to_json_sample(), Sample::Null);
    assert_eq!(typed(JsonSchemaTypes::Object).to_json_sample(), Sample::Object(None, vec![]));
}

#[test]
fn sample_keeps_the_order_of_the_properties_and_the_names_of_the_objects() {
    let schema = named(
        object(vec![
            ("zeta", typed(JsonSchemaTypes::String)),
            ("alpha", named(object(vec![("x", typed(JsonSchemaTypes::Number))]), "Point")),
            ("list", array_of(object(vec![("y", typed(JsonSchemaTypes::Number))]))),
        ]),
        "Root",
    );
    assert_eq!(
        schema.to_json_sample(),
        Sample::Object(
            Some("Root".to_string()),
            vec![
                ("zeta".to_string(), Sample::Text(String::new())),
                (
                    "alpha".to_string(),
                    Sample::Object(
                        Some("Point".to_string()),
                        vec![("x".to_string(), Sample::Number(0))]
                    )
                ),
                (
                    "list".to_string(),
                    Sample::Array(vec![Sample::Object(
                        None,
                        vec![("y".to_string(), Sample::Number(0))]
                    )])
                ),
            ]
        )
    );
}

#[test]
fn field_types_are_inferred_from_the_sample() {
    let content = Sample::Object(
        None,
        vec![
            ("name".to_string(), Sample::Text(String::new())),
            ("age".to_string(), Sample::Number(0)),
            ("active".to_string(), Sample::Bool(false)),
            ("nothing".to_string(), Sample::Null),
            ("words".to_string(), Sample::Array(vec![Sample::Text(String::new())])),
            ("counts".to_string(), Sample::Array(vec![Sample::Number(0), Sample::Null])),
            ("flags".to_string(), Sample::Array(vec![Sample::Bool(true)])),
            ("empty".to_string(), Sample::Array(vec![])),
            ("objects".to_string(), Sample::Array(vec![Sample::Object(None, vec![])])),
            ("lists".to_string(), Sample::Array(vec![Sample::Array(vec![])])),
            ("nulls".to_string(), Sample::Array(vec![Sample::Null, Sample::Number(0)])),
        ],
    );
    let (main, nested) = generate_structs(&input(content), "Root");
    assert!(nested.is_empty());
    assert_eq!(
        main,
        Declaration {
            name: "Root".to_string(),
            fields: vec![
                field("name", FieldType::Text, "name"),
                field("age", FieldType::Float, "age"),
                field("active", FieldType::Boolean, "active"),
                field("nothing", FieldType::OptionalAny, "nothing"),
                field("words", FieldType::Sequence(ElementType::Text), "words"),
                field("counts", FieldType::Sequence(ElementType::Float), "counts"),
                field("flags", FieldType::Sequence(ElementType::Boolean), "flags"),
                field("empty", FieldType::Sequence(ElementType::Any), "empty"),
                field("objects", FieldType::Sequence(ElementType::Any), "objects"),
                field("lists", FieldType::Sequence(ElementType::Any), "lists"),
                field("nulls", FieldType::Sequence(ElementType::Any), "nulls"),
            ],
        }
    );
}

#[test]
fn field_names_are_in_snake_case_and_keep_the_key_as_alias() {
    let content = Sample::Object(
        None,
        vec![
            ("userName".to_string(), Sample::Text(String::new())),
            ("Home-Address".to_string(), Sample::Number(0)),
            ("plain".to_string(), Sample::Number(0)),
        ],
    );
    let (main, _) = generate_structs(&input(content), "Root");
    assert_eq!(
        main.fields,
        vec![
            field("user_name", FieldType::Text, "userName"),
            field("home_address", FieldType::Float, "Home-Address"),
            field("plain", FieldType::Float, "plain"),
        ]
    );
}

#[test]
fn nested_declaration_without_a_name_is_named_after_parent_and_field() {
    let content = Sample::Object(
        None,
        vec![(
            "homeAddress".to_string(),
            Sample::Object(None, vec![("street".to_string(), Sample::Text(String::new()))]),
        )],
    );
    let (main, nested) = generate_structs(&input(content), "User");
    assert_eq!(
        main.fields,
        vec![field("home_address", FieldType::Nested("UserHomeAddress".to_string()), "homeAddress")]
    );
    assert_eq!(
        nested,
        vec![Declaration {
            name: "UserHomeAddress".to_string(),
            fields: vec![field("street", FieldType::Text, "street")],
        }]
    );
}

#[test]
fn nested_declaration_with_a_name_takes_it_in_pascal_case() {
    let content = Sample::Object(
        None,
        vec![("geo".to_string(), Sample::Object(Some("map_point".to_string()), vec![]))],
    );
    let (main, nested) = generate_structs(&input(content), "User");
    assert_eq!(main.fields, vec![field("geo", FieldType::Nested("MapPoint".to_string()), "geo")]);
    assert_eq!(nested, vec![Declaration { name: "MapPoint".to_string(), fields: vec![] }]);
}

#[test]
fn nested_declarations_come_before_those_that_refer_to_them() {
    let leaf = Sample::Object(None, vec![("x".to_string(), Sample::Number(0))]);
    let middle = Sample::Object(None, vec![("leaf".to_string(), leaf)]);
    let other = Sample::Object(Some("Other".to_string()), vec![]);
    let content = Sample::Object(
        Some("Root".to_string()),
        vec![
            ("middle".to_string(), middle),
            ("n".to_string(), Sample::Number(0)),
            ("other".to_string(), other),
        ],
    );
    let (main, nested) = generate_structs(&input(content), "Root");
    let names: Vec<&str> = nested.iter().map(|d| d.name.as_str()).collect();
    assert_eq!(names, vec!["RootMiddleLeaf", "RootMiddle", "Other"]);
    assert_eq!(nested[1].fields, vec![field("leaf", FieldType::Nested("RootMiddleLeaf".to_string()), "leaf")]);
    assert_eq!(main.name, "Root");
    assert_eq!(main.fields.len(), 3);
}

#[test]
fn sample_that_is_no_object_gives_a_declaration_without_fields() {
    let (main, nested) = generate_structs(&input(Sample::Text(String::new())), "Word");
    assert_eq!(main, Declaration { name: "Word".to_string(), fields: vec![] });
    assert!(nested.is_empty());
    let (main, nested) = generate_structs(&input(Sample::Array(vec![Sample::Number(0)])), "List");
    assert_eq!(main, Declaration { name: "List".to_string(), fields: vec![] });
    assert!(nested.is_empty());
}

#[test]
fn synthesized_name_joins_parent_and_field() {
    assert_eq!(synthesized_name("User", "HomeAddress"), "UserHomeAddress");
    assert_eq!(synthesized_name("", "HomeAddress"), "HomeAddress");
    assert_eq!(synthesized_name("User", ""), "User");
}

#[test]
fn constant_name_ends_in_json_value() {
    assert_eq!(constant_for("USER".to_string()), "USER_JSON_VALUE");
    assert_eq!(constant_for(String::new()), "_JSON_VALUE");
}

#[test]
fn constant_is_named_after_the_root_in_upper_case() {
    assert_eq!(get_serde_const("User"), "USER_JSON_VALUE");
    assert_eq!(get_serde_const("homeAddress"), "HOMEADDRESS_JSON_VALUE");
}

#[test]
fn generate_puts_the_root_last() {
    let schema = named(
        object(vec![
            ("name", typed(JsonSchemaTypes::String)),
            ("address", object(vec![("geo", named(object(vec![]), "Point"))])),
            ("tags", array_of(typed(JsonSchemaTypes::String))),
        ]),
        "User",
    );
    let generated = generate(&schema, "User");
    assert_eq!(generated.constant_name, "USER_JSON_VALUE");
    assert_eq!(
        generated.declarations,
        vec![
            Declaration { name: "Point".to_string(), fields: vec![] },
            Declaration {
                name: "UserAddress".to_string(),
                fields: vec![field("geo", FieldType::Nested("Point".to_string()), "geo")],
            },
            Declaration {
                name: "User".to_string(),
                fields: vec![
                    field("name", FieldType::Text, "name"),
                    field("address", FieldType::Nested("UserAddress".to_string()), "address"),
                    field("tags", FieldType::Sequence(ElementType::Text), "tags"),
                ],
            },
        ]
    );
}

#[test]
fn generating_twice_gives_the_same() {
    let schema = named(
        object(vec![
            ("b", object(vec![("c", object(vec![]))])),
            ("a", object(vec![])),
            ("d", array_of(typed(JsonSchemaTypes::Number))),
        ]),
        "Root",
    );
    let first = generate(&schema, "Root");
    let second = generate(&schema, "Root");
    assert_eq!(first, second);
    let names: Vec<&str> = first.declarations.iter().map(|d| d.name.as_str()).collect();
    assert_eq!(names, vec!["RootBC", "RootB", "RootA", "Root"]);
}

fn at(n: usize) -> Span {
    Span { start: n, end: n + 1 }
}

fn ident(name: &str, n: usize) -> Token {
    Token::Ident(name.to_string(), at(n))
}

fn colon(n: usize) -> Token {
    Token::Punct(':', at(n))
}

fn comma(n: usize) -> Token {
    Token::Punct(',', at(n))
}

fn text(value: &str, n: usize) -> Token {
    Token::Str(value.to_string(), at(n))
}

fn braces(tokens: Vec<Token>, n: usize) -> Token {
    Token::Group(Delimiter::Brace, tokens, at(n))
}

/// struct: "User", type: object,
/// properties: { "name": { type: string }, "age": { type: number, minimum: 0 } },
/// required: ["name", "age"]
fn user_tokens() -> Vec<Token> {
    vec![
        ident("struct", 0),
        colon(1),
        text("User", 2),
        comma(3),
        ident("type", 4),
        colon(5),
        ident("object", 6),
        comma(7),
        ident("properties", 8),
        colon(9),
        braces(
            vec![
                text("name", 10),
                colon(11),
                braces(vec![ident("type", 12), colon(13), ident("string", 14)], 15),
                comma(16),
                text("age", 17),
                colon(18),
                braces(
                    vec![
                        ident("type", 19),
                        colon(20),
                        ident("number", 21),
                        comma(22),
                        ident("minimum", 23),
                        colon(24),
                        Token::Int(Some(0), at(25)),
                    ],
                    26,
                ),
            ],
            27,
        ),
        comma(28),
        ident("required", 29),
        colon(30),
        Token::Group(Delimiter::Bracket, vec![text("name", 31), comma(32), text("age", 33)], at(34)),
    ]
}

#[test]
fn valid_schema_compiles_to_its_declarations() {
    let expansion = schema2struct(&user_tokens(), at(100));
    assert!(expansion.recoverable.is_empty());
    let compiled = expansion.result.unwrap();
    assert_eq!(compiled.schema.struct_name.as_ref().unwrap().value, "User");
    assert_eq!(compiled.schema.depth, 1);
    assert_eq!(compiled.generated.constant_name, "USER_JSON_VALUE");
    assert_eq!(
        compiled.generated.declarations,
        vec![Declaration {
            name: "User".to_string(),
            fields: vec![
                field("name", FieldType::Text, "name"),
                field("age", FieldType::Float, "age"),
            ],
        }]
    );
}

#[test]
fn misplaced_key_does_not_keep_the_declarations_back() {
    // struct: "Root", type: object, properties: { "s": { type: string, minimum: 1 } }
    let tokens = vec![
        ident("struct", 0),
        colon(1),
        text("Root", 2),
        comma(3),
        ident("type", 4),
        colon(5),
        ident("object", 6),
        comma(7),
        ident("properties", 8),
        colon(9),
        braces(
            vec![
                text("s", 10),
                colon(11),
                braces(
                    vec![
                        ident("type", 12),
                        colon(13),
                        ident("string", 14),
                        comma(15),
                        ident("minimum", 16),
                        colon(17),
                        Token::Int(Some(1), at(18)),
                    ],
                    19,
                ),
            ],
            20,
        ),
    ];
    let expansion = schema2struct(&tokens, at(100));
    assert_eq!(
        expansion.recoverable,
        vec![Diagnostic {
            kind: DiagnosticKind::MisusedKey(JsonSchemaKeywords::Minimum),
            span: at(16)
        }]
    );
    let compiled = expansion.result.unwrap();
    assert_eq!(
        compiled.generated.declarations,
        vec![Declaration {
            name: "Root".to_string(),
            fields: vec![field("s", FieldType::Text, "s")],
        }]
    );
}

#[test]
fn root_that_is_a_string_still_gets_a_declaration() {
    // type: string, struct: "Word", minimum: 1
    let tokens = vec![
        ident("type", 0),
        colon(1),
        ident("string", 2),
        comma(3),
        ident("struct", 4),
        colon(5),
        text("Word", 6),
        comma(7),
        ident("minimum", 8),
        colon(9),
        Token::Int(Some(1), at(10)),
    ];
    let expansion = schema2struct(&tokens, at(100));
    let referring: Vec<&Diagnostic> = expansion
        .recoverable
        .iter()
        .filter(|d| d.kind == DiagnosticKind::MisusedKey(JsonSchemaKeywords::Minimum))
        .collect();
    assert_eq!(referring.len(), 1);
    assert_eq!(referring[0].span, at(8));
    assert_eq!(expansion.recoverable.len(), 2);
    assert_eq!(expansion.recoverable[1].kind, DiagnosticKind::StructNameOnNonObject);
    let compiled = expansion.result.unwrap();
    assert_eq!(compiled.schema.ty, JsonSchemaTypes::String);
    assert_eq!(
        compiled.generated.declarations,
        vec![Declaration { name: "Word".to_string(), fields: vec![] }]
    );
}

#[test]
fn fatal_diagnostic_leaves_nothing_generated() {
    let tokens = vec![ident("type", 0), colon(1), ident("object", 2)];
    let expansion = schema2struct(&tokens, at(100));
    assert_eq!(
        expansion.result,
        Err(Diagnostic { kind: DiagnosticKind::MissingRootName, span: at(100) })
    );
    assert!(expansion.recoverable.is_empty());
}

#[test]
fn copy_of_a_sample_is_equal_to_the_sample() {
    let sample = Sample::Object(
        Some("Root".to_string()),
        vec![
            ("a".to_string(), Sample::Array(vec![Sample::Text("t".to_string()), Sample::Null])),
            ("b".to_string(), Sample::Object(None, vec![("c".to_string(), Sample::Bool(true))])),
            ("d".to_string(), Sample::Number(4)),
        ],
    );
    assert_eq!(sample.clone(), sample);
}
