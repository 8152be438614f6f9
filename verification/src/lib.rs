//! Compiles a compact JSON-Schema dialect, given as a token tree, into a
//! checked schema tree and a set of named type declarations.
//!
//! The dialect names the root declaration with the `struct` keyword, and lets
//! `items` carry either a bare type or a full nested schema.

pub mod checkers;
pub mod coercion;
pub mod diagnostics;
pub mod generator;
pub mod laws;
pub mod literals;
pub mod merge;
pub mod models;
pub mod names;
pub mod ordering;
pub mod parsers;
pub mod severity;
pub mod text;
pub mod tokens;
pub mod validity;

use crate::diagnostics::{Diagnostic, Span};
use crate::generator::{
    generate_structs, main_declaration, nested_declarations, sample_of, Declaration,
    DeclarationModel, JsonMacroInput,
};
use crate::severity::{lemma_schema_severity, sorted_by_severity};
use crate::validity::{lemma_accepted_root_is_valid, valid};
use crate::models::{JsonSchema, SchemaModel};
use crate::ordering::{bottom_up, lemma_generated_order};
use crate::parsers::{parse_schema, Outcome};
use crate::text::{to_uppercase, uppercase};
use crate::tokens::Token;
use vstd::pervasive::unreached;
use vstd::prelude::*;
use vstd::string::StringExecFns;

verus! {

/// What reading a root schema gave: the checked schema or the diagnostic
/// that stopped the reading, and what was reported without stopping it.
#[derive(Debug, PartialEq, Eq)]
pub struct Parsed {
    pub result: Result<JsonSchema, Diagnostic>,
    pub recoverable: Vec<Diagnostic>,
}

impl Parsed {
    /// The mathematical value of what was read.
    pub open spec fn outcome(&self) -> Outcome<SchemaModel> {
        Outcome {
            result: match self.result {
                Ok(schema) => Ok(schema@),
                Err(fault) => Err(fault),
            },
            recoverable: self.recoverable@,
        }
    }
}

/// Reads the tokens of a root schema, found at `anchor`, and checks it.
///
/// A schema that is returned is valid at every level and has a `struct`
/// name. Whatever is returned, the diagnostic that stopped the reading is of
/// a kind that stops it, and what was reported on the way is not.
pub fn parse_and_validate(tokens: &Vec<Token>, anchor: Span) -> (parsed: Parsed)
    ensures
        parsed.outcome() == parse_schema(tokens.deep_view(), 1, anchor),
        parsed.result matches Ok(schema) ==> valid(schema@) && schema@.struct_name is Some,
        sorted_by_severity(parsed.outcome()),
{
    let mut recoverable: Vec<Diagnostic> = Vec::new();
    let result = JsonSchema::parse(tokens, 1, anchor, &mut recoverable);
    proof {
        lemma_accepted_root_is_valid(tokens.deep_view(), anchor);
        lemma_schema_severity(tokens.deep_view(), 1, anchor);
    }
    Parsed { result, recoverable }
}

/// What is generated for a root schema.
#[derive(Debug, PartialEq, Eq)]
pub struct Generated {
    /// The name of the constant that holds the schema in serialized form.
    pub constant_name: String,
    /// The declarations, each one after those it refers to; the last one is
    /// the declaration of the root.
    pub declarations: Vec<Declaration>,
}

/// The name of the constant that holds the serialized schema of the root
/// named `name`.
pub open spec fn constant_name(name: Seq<char>) -> Seq<char> {
    uppercase(name) + "_JSON_VALUE"@
}

/// The declarations for a schema whose root is named `name`: the nested
/// ones, each after those it refers to, and then the root's.
pub open spec fn declarations_of(node: SchemaModel, name: Seq<char>) -> Seq<DeclarationModel> {
    let sample = sample_of(node);
    nested_declarations(sample, name).push(main_declaration(sample, name))
}

/// The name of the constant for a root whose name in upper case is
/// `upper`.
pub fn constant_for(upper: String) -> (name: String)
    ensures
        name@ == upper@ + "_JSON_VALUE"@,
{
    let mut name = upper;
    name.append("_JSON_VALUE");
    name
}

/// The name of the constant that holds the serialized schema of the root
/// named `title`.
pub fn get_serde_const(title: &str) -> (name: String)
    ensures
        name@ == constant_name(title@),
{
    constant_for(to_uppercase(title))
}

/// Generates the declarations for `node`, with `name` as the name of the
/// root's declaration, and the name of the constant for the serialized
/// schema.
///
/// Each declaration stands after those that its fields refer to.
pub fn generate(node: &JsonSchema, name: &str) -> (generated: Generated)
    ensures
        generated.constant_name@ == constant_name(name@),
        generated.declarations.deep_view() == declarations_of(node@, name@),
        bottom_up(generated.declarations.deep_view()),
{
    proof {
        lemma_generated_order(node@, name@);
    }
    let input = JsonMacroInput { struct_name: name.to_owned(), content: node.to_json_sample() };
    let (main_struct, nested) = generate_structs(&input, name);
    let ghost before = nested.deep_view();
    let ghost last = main_struct.deep_view();
    let mut declarations = nested;
    declarations.push(main_struct);
    assert(declarations.deep_view() =~= before.push(last));
    Generated { constant_name: get_serde_const(name), declarations }
}

/// A checked root schema and what was generated for it.
#[derive(Debug, PartialEq, Eq)]
pub struct Compiled {
    pub schema: JsonSchema,
    pub generated: Generated,
}

/// What compiling a root schema gave: the schema with its declarations or
/// the diagnostic that stopped the compilation, and what was reported
/// without stopping it.
#[derive(Debug, PartialEq, Eq)]
pub struct Expansion {
    pub result: Result<Compiled, Diagnostic>,
    pub recoverable: Vec<Diagnostic>,
}

/// Compiles the tokens of a root schema, found at `anchor`: reads and checks
/// the schema, and generates the declarations under its `struct` name.
///
/// Nothing is generated when a diagnostic stops the reading; what is
/// reported without stopping does not keep the declarations back.
pub fn schema2struct(tokens: &Vec<Token>, anchor: Span) -> (expansion: Expansion)
    ensures
        expansion.recoverable@ == parse_schema(tokens.deep_view(), 1, anchor).recoverable,
        match parse_schema(tokens.deep_view(), 1, anchor).result {
            Ok(node) => {
                &&& node.struct_name is Some
                &&& expansion.result matches Ok(compiled)
                &&& compiled.schema@ == node
                &&& compiled.generated.constant_name@ == constant_name(node.struct_name->0.value)
                &&& compiled.generated.declarations.deep_view() == declarations_of(
                    node,
                    node.struct_name->0.value,
                )
            },
            Err(fault) => expansion.result == Err::<Compiled, Diagnostic>(fault),
        },
{
    let parsed = parse_and_validate(tokens, anchor);
    let Parsed { result, recoverable } = parsed;
    match result {
        Ok(schema) => {
            let generated = match &schema.struct_name {
                Some(name) => generate(&schema, name.value.as_str()),
                None => unreached(),
            };
            Expansion { result: Ok(Compiled { schema, generated }), recoverable }
        },
        Err(fault) => Expansion { result: Err(fault), recoverable },
    }
}

} // verus!
