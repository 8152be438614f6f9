//! The schema tree and the literal values that its keywords accept.

use crate::diagnostics::{Located, Provenance, Span};
use vstd::prelude::*;

verus! {

/// The kind of data a schema level describes.
///
/// `Unset` is the state of a fresh node; it never names a declared type.
#[derive(Clone, Copy, Debug, PartialEq, Eq, Structural)]
pub enum JsonSchemaTypes {
    Object,
    String,
    Array,
    Number,
    Unset,
}

impl JsonSchemaTypes {
    /// Whether no type has been declared yet.
    pub fn is_none(&self) -> (unset: bool)
        ensures
            unset == (*self == JsonSchemaTypes::Unset),
    {
        matches!(self, JsonSchemaTypes::Unset)
    }
}

/// The string formats that `format` accepts.
#[derive(Clone, Copy, Debug, PartialEq, Eq, Structural)]
pub enum Formats {
    Date,
    Time,
    DateTime,
    Email,
    Hostname,
    Ipv4,
    Ipv6,
    Uri,
}

/// Every identifier that may stand before a colon.
#[derive(Clone, Copy, Debug, PartialEq, Eq, Structural)]
pub enum JsonSchemaKeywords {
    Type,
    Title,
    Required,
    Description,
    Items,
    Properties,
    Default,
    Examples,
    Enum,
    Const,
    MinLength,
    MaxLength,
    Pattern,
    Format,
    Minimum,
    Maximum,
    MinItems,
    MaxItems,
    UniqueItems,
    Contains,
    Struct,
}

/// A literal as it stands after a colon.
#[derive(Debug, PartialEq, Eq)]
pub enum JsonSchemaValues {
    Ident(String),
    Str(String),
    Number(i64),
    Bool(bool),
    Char(char),
    Array(Vec<JsonSchemaValues>),
}

/// The mathematical value of a [`JsonSchemaValues`].
pub enum ValueModel {
    Ident(Seq<char>),
    Str(Seq<char>),
    Number(i64),
    Bool(bool),
    Char(char),
    Array(Seq<ValueModel>),
}

impl JsonSchemaValues {
    /// The mathematical value of the literal.
    pub open spec fn model(&self) -> ValueModel
        decreases self,
    {
        match self {
            JsonSchemaValues::Ident(name) => ValueModel::Ident(name@),
            JsonSchemaValues::Str(text) => ValueModel::Str(text@),
            JsonSchemaValues::Number(n) => ValueModel::Number(*n),
            JsonSchemaValues::Bool(b) => ValueModel::Bool(*b),
            JsonSchemaValues::Char(c) => ValueModel::Char(*c),
            JsonSchemaValues::Array(elements) => ValueModel::Array(
                Seq::new(
                    elements.len() as nat,
                    |i: int|
                        if 0 <= i < elements.len() {
                            elements[i].model()
                        } else {
                            arbitrary()
                        },
                ),
            ),
        }
    }
}

impl View for JsonSchemaValues {
    type V = ValueModel;

    open spec fn view(&self) -> ValueModel {
        self.model()
    }
}

impl DeepView for JsonSchemaValues {
    type V = ValueModel;

    open spec fn deep_view(&self) -> ValueModel {
        self.model()
    }
}

/// The elements of an array literal are the values of the literals that it
/// holds.
pub proof fn lemma_array_view(elements: Vec<JsonSchemaValues>)
    ensures
        JsonSchemaValues::Array(elements)@ == ValueModel::Array(elements.deep_view()),
{
    let inner = JsonSchemaValues::Array(elements)@->Array_0;
    assert(inner =~= elements.deep_view());
}

impl JsonSchemaValues {
    /// The text of a string literal; nothing for any other literal.
    pub fn get_str(&self) -> (text: Option<&String>)
        ensures
            match text {
                Some(s) => self@ == ValueModel::Str(s@),
                None => !(self@ is Str),
            },
    {
        match self {
            JsonSchemaValues::Str(s) => Some(s),
            _ => None,
        }
    }
}

impl Clone for JsonSchemaValues {
    fn clone(&self) -> (copy: JsonSchemaValues)
        ensures
            copy@ == self@,
        decreases self,
    {
        match self {
            JsonSchemaValues::Ident(name) => JsonSchemaValues::Ident(name.clone()),
            JsonSchemaValues::Str(text) => JsonSchemaValues::Str(text.clone()),
            JsonSchemaValues::Number(n) => JsonSchemaValues::Number(*n),
            JsonSchemaValues::Bool(b) => JsonSchemaValues::Bool(*b),
            JsonSchemaValues::Char(c) => JsonSchemaValues::Char(*c),
            JsonSchemaValues::Array(elements) => {
                let mut copies: Vec<JsonSchemaValues> = Vec::new();
                let mut i: usize = 0;
                while i < elements.len()
                    invariant
                        i <= elements.len(),
                        copies.len() == i,
                        decreases_to!(self => elements),
                        forall|j: int| 0 <= j < i ==> (#[trigger] copies[j])@ == elements[j]@,
                    decreases elements.len() - i,
                {
                    copies.push(elements[i].clone());
                    i += 1;
                }
                proof {
                    lemma_array_view(*elements);
                    lemma_array_view(copies);
                    assert(copies.deep_view() =~= elements.deep_view());
                }
                JsonSchemaValues::Array(copies)
            },
        }
    }
}

/// One level of a schema: a root, a property, or the element of an array.
///
/// Every keyword that was given is kept with the place it came from.
#[derive(Debug, PartialEq, Eq)]
pub struct JsonSchema {
    pub ty: JsonSchemaTypes,
    pub ty_span: Option<Provenance>,
    pub title: Option<Located<String>>,
    pub description: Option<Located<String>>,
    pub default: Option<Located<JsonSchemaValues>>,
    pub examples: Option<Located<Vec<String>>>,
    pub enum_values: Option<Located<Vec<JsonSchemaValues>>>,
    pub const_value: Option<Located<JsonSchemaValues>>,
    /// The properties in the order in which they were first given; no name
    /// occurs twice.
    pub properties: Option<Located<Vec<(String, JsonSchema)>>>,
    pub required: Option<Located<Vec<String>>>,
    pub min_length: Option<Located<u64>>,
    pub max_length: Option<Located<u64>>,
    pub pattern: Option<Located<String>>,
    pub format: Option<Located<Formats>>,
    pub minimum: Option<Located<u64>>,
    pub maximum: Option<Located<u64>>,
    pub items: Option<Located<Box<JsonSchema>>>,
    pub min_items: Option<Located<u64>>,
    pub max_items: Option<Located<u64>>,
    pub unique_items: Option<Located<bool>>,
    pub contains: Option<Located<Box<JsonSchema>>>,
    /// 1 for the root, one more for each schema block entered.
    pub depth: usize,
    /// Where diagnostics about the level as a whole are reported.
    pub current_key_span: Span,
    pub struct_name: Option<Located<String>>,
}

/// The mathematical value of a [`JsonSchema`].
pub struct SchemaModel {
    pub ty: JsonSchemaTypes,
    pub ty_span: Option<Provenance>,
    pub title: Option<Located<Seq<char>>>,
    pub description: Option<Located<Seq<char>>>,
    pub default: Option<Located<ValueModel>>,
    pub examples: Option<Located<Seq<Seq<char>>>>,
    pub enum_values: Option<Located<Seq<ValueModel>>>,
    pub const_value: Option<Located<ValueModel>>,
    pub properties: Option<Located<Seq<(Seq<char>, SchemaModel)>>>,
    pub required: Option<Located<Seq<Seq<char>>>>,
    pub min_length: Option<Located<u64>>,
    pub max_length: Option<Located<u64>>,
    pub pattern: Option<Located<Seq<char>>>,
    pub format: Option<Located<Formats>>,
    pub minimum: Option<Located<u64>>,
    pub maximum: Option<Located<u64>>,
    pub items: Option<Located<Box<SchemaModel>>>,
    pub min_items: Option<Located<u64>>,
    pub max_items: Option<Located<u64>>,
    pub unique_items: Option<Located<bool>>,
    pub contains: Option<Located<Box<SchemaModel>>>,
    pub depth: usize,
    pub current_key_span: Span,
    pub struct_name: Option<Located<Seq<char>>>,
}

impl JsonSchema {
    /// The mathematical value of the schema.
    pub open spec fn model(&self) -> SchemaModel
        decreases self,
    {
        SchemaModel {
            ty: self.ty,
            ty_span: self.ty_span,
            title: self.title.deep_view(),
            description: self.description.deep_view(),
            default: self.default.deep_view(),
            examples: self.examples.deep_view(),
            enum_values: self.enum_values.deep_view(),
            const_value: self.const_value.deep_view(),
            properties: match self.properties {
                Some(located) => Some(
                    Located {
                        value: Seq::new(
                            located.value.len() as nat,
                            |i: int|
                                if 0 <= i < located.value.len() {
                                    (located.value[i].0@, located.value[i].1.model())
                                } else {
                                    arbitrary()
                                },
                        ),
                        at: located.at,
                    },
                ),
                None => None,
            },
            required: self.required.deep_view(),
            min_length: self.min_length,
            max_length: self.max_length,
            pattern: self.pattern.deep_view(),
            format: self.format,
            minimum: self.minimum,
            maximum: self.maximum,
            items: match self.items {
                Some(located) => Some(Located { value: Box::new(located.value.model()), at: located.at }),
                None => None,
            },
            min_items: self.min_items,
            max_items: self.max_items,
            unique_items: self.unique_items,
            contains: match self.contains {
                Some(located) => Some(Located { value: Box::new(located.value.model()), at: located.at }),
                None => None,
            },
            depth: self.depth,
            current_key_span: self.current_key_span,
            struct_name: self.struct_name.deep_view(),
        }
    }
}

impl SchemaModel {
    /// The schema that says nothing: no type, no keyword, depth 0.
    pub open spec fn empty() -> SchemaModel {
        SchemaModel {
            ty: JsonSchemaTypes::Unset,
            ty_span: None,
            title: None,
            description: None,
            default: None,
            examples: None,
            enum_values: None,
            const_value: None,
            properties: None,
            required: None,
            min_length: None,
            max_length: None,
            pattern: None,
            format: None,
            minimum: None,
            maximum: None,
            items: None,
            min_items: None,
            max_items: None,
            unique_items: None,
            contains: None,
            depth: 0,
            current_key_span: Span { start: 0, end: 0 },
            struct_name: None,
        }
    }
}

impl Default for JsonSchema {
    fn default() -> (schema: JsonSchema)
        ensures
            schema@ == SchemaModel::empty(),
    {
        JsonSchema {
            ty: JsonSchemaTypes::Unset,
            ty_span: None,
            title: None,
            description: None,
            default: None,
            examples: None,
            enum_values: None,
            const_value: None,
            properties: None,
            required: None,
            min_length: None,
            max_length: None,
            pattern: None,
            format: None,
            minimum: None,
            maximum: None,
            items: None,
            min_items: None,
            max_items: None,
            unique_items: None,
            contains: None,
            depth: 0,
            current_key_span: Span { start: 0, end: 0 },
            struct_name: None,
        }
    }
}

/// A copy of a text field.
fn clone_text(field: &Option<Located<String>>) -> (copy: Option<Located<String>>)
    ensures
        copy.deep_view() == field.deep_view(),
{
    match field {
        Some(located) => Some(Located { value: located.value.clone(), at: located.at }),
        None => None,
    }
}

/// A copy of a field that holds texts.
fn clone_texts(field: &Option<Located<Vec<String>>>) -> (copy: Option<Located<Vec<String>>>)
    ensures
        copy.deep_view() == field.deep_view(),
{
    match field {
        Some(located) => {
            let mut copies: Vec<String> = Vec::new();
            let mut i: usize = 0;
            while i < located.value.len()
                invariant
                    i <= located.value.len(),
                    copies.len() == i,
                    forall|j: int| 0 <= j < i ==> (#[trigger] copies[j])@ == located.value[j]@,
                decreases located.value.len() - i,
            {
                copies.push(located.value[i].clone());
                i += 1;
            }
            assert(copies.deep_view() =~= located.value.deep_view());
            Some(Located { value: copies, at: located.at })
        },
        None => None,
    }
}

/// A copy of a field that holds a literal.
fn clone_value(field: &Option<Located<JsonSchemaValues>>) -> (copy: Option<
    Located<JsonSchemaValues>,
>)
    ensures
        copy.deep_view() == field.deep_view(),
{
    match field {
        Some(located) => Some(Located { value: located.value.clone(), at: located.at }),
        None => None,
    }
}

/// A copy of a field that holds literals.
fn clone_values(field: &Option<Located<Vec<JsonSchemaValues>>>) -> (copy: Option<
    Located<Vec<JsonSchemaValues>>,
>)
    ensures
        copy.deep_view() == field.deep_view(),
{
    match field {
        Some(located) => {
            let mut copies: Vec<JsonSchemaValues> = Vec::new();
            let mut i: usize = 0;
            while i < located.value.len()
                invariant
                    i <= located.value.len(),
                    copies.len() == i,
                    forall|j: int| 0 <= j < i ==> (#[trigger] copies[j])@ == located.value[j]@,
                decreases located.value.len() - i,
            {
                copies.push(located.value[i].clone());
                i += 1;
            }
            assert(copies.deep_view() =~= located.value.deep_view());
            Some(Located { value: copies, at: located.at })
        },
        None => None,
    }
}

/// A copy of a field that holds a number, a flag or a format.
fn clone_plain<T: Copy>(field: &Option<Located<T>>) -> (copy: Option<Located<T>>)
    ensures
        copy == *field,
{
    match field {
        Some(located) => Some(Located { value: located.value, at: located.at }),
        None => None,
    }
}

impl Clone for JsonSchema {
    fn clone(&self) -> (copy: JsonSchema)
        ensures
            copy@ == self@,
        decreases self,
    {
        let properties = match &self.properties {
            Some(located) => {
                let mut copies: Vec<(String, JsonSchema)> = Vec::new();
                let mut i: usize = 0;
                while i < located.value.len()
                    invariant
                        i <= located.value.len(),
                        copies.len() == i,
                        decreases_to!(self => located),
                        forall|j: int|
                            0 <= j < i ==> (#[trigger] copies[j]).0@ == located.value[j].0@
                                && copies[j].1@ == located.value[j].1@,
                    decreases located.value.len() - i,
                {
                    let child = located.value[i].1.clone();
                    copies.push((located.value[i].0.clone(), child));
                    i += 1;
                }
                assert(copies.deep_view() =~= located.value.deep_view());
                Some(Located { value: copies, at: located.at })
            },
            None => None,
        };
        let items = match &self.items {
            Some(located) => Some(
                Located { value: Box::new((*located.value).clone()), at: located.at },
            ),
            None => None,
        };
        let contains = match &self.contains {
            Some(located) => Some(
                Located { value: Box::new((*located.value).clone()), at: located.at },
            ),
            None => None,
        };
        let copy = JsonSchema {
            ty: self.ty,
            ty_span: self.ty_span,
            title: clone_text(&self.title),
            description: clone_text(&self.description),
            default: clone_value(&self.default),
            examples: clone_texts(&self.examples),
            enum_values: clone_values(&self.enum_values),
            const_value: clone_value(&self.const_value),
            properties,
            required: clone_texts(&self.required),
            min_length: clone_plain(&self.min_length),
            max_length: clone_plain(&self.max_length),
            pattern: clone_text(&self.pattern),
            format: clone_plain(&self.format),
            minimum: clone_plain(&self.minimum),
            maximum: clone_plain(&self.maximum),
            items,
            min_items: clone_plain(&self.min_items),
            max_items: clone_plain(&self.max_items),
            unique_items: clone_plain(&self.unique_items),
            contains,
            depth: self.depth,
            current_key_span: self.current_key_span,
            struct_name: clone_text(&self.struct_name),
        };
        proof {
            lemma_schema_view(*self);
            lemma_schema_view(copy);
        }
        copy
    }
}

/// The properties of a schema's value are the values of its properties.
pub proof fn lemma_schema_view(schema: JsonSchema)
    ensures
        schema@.properties == schema.properties.deep_view(),
{
    match schema.properties {
        Some(located) => {
            assert(schema@.properties->0.value =~= located.value.deep_view());
        },
        None => {},
    }
}

impl View for JsonSchema {
    type V = SchemaModel;

    open spec fn view(&self) -> SchemaModel {
        self.model()
    }
}

impl DeepView for JsonSchema {
    type V = SchemaModel;

    open spec fn deep_view(&self) -> SchemaModel {
        self.model()
    }
}

} // verus!
