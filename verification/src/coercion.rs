//! How names are decoded, and how a keyword and the literal after it become
//! one field of a schema.

use crate::diagnostics::{result_model, Diagnostic, DiagnosticKind, Located, Provenance, Span};
use crate::models::{
    lemma_array_view, Formats, JsonSchema, JsonSchemaKeywords, JsonSchemaTypes,
    JsonSchemaValues, SchemaModel, ValueModel,
};
use crate::text::str_eq;
use vstd::prelude::*;

verus! {

impl JsonSchemaTypes {
    /// How the type is written; a type that is not set is written `null`.
    pub open spec fn name(self) -> Seq<char> {
        match self {
            JsonSchemaTypes::Array => "array"@,
            JsonSchemaTypes::Object => "object"@,
            JsonSchemaTypes::String => "string"@,
            JsonSchemaTypes::Number => "number"@,
            JsonSchemaTypes::Unset => "null"@,
        }
    }

    /// How the type is written.
    pub fn as_str(&self) -> (name: &'static str)
        ensures
            name@ == self.name(),
    {
        match self {
            JsonSchemaTypes::Array => "array",
            JsonSchemaTypes::Object => "object",
            JsonSchemaTypes::String => "string",
            JsonSchemaTypes::Number => "number",
            JsonSchemaTypes::Unset => "null",
        }
    }

    /// The type that an identifier names, if it names one.
    pub open spec fn from_name(name: Seq<char>) -> Option<JsonSchemaTypes> {
        if name == "array"@ {
            Some(JsonSchemaTypes::Array)
        } else if name == "object"@ {
            Some(JsonSchemaTypes::Object)
        } else if name == "string"@ {
            Some(JsonSchemaTypes::String)
        } else if name == "number"@ {
            Some(JsonSchemaTypes::Number)
        } else {
            None
        }
    }

    /// Decodes the identifier found at `span` as a type.
    pub fn try_from(name: &str, span: Span) -> (decoded: Result<JsonSchemaTypes, Diagnostic>)
        ensures
            decoded == match JsonSchemaTypes::from_name(name@) {
                Some(ty) => Ok::<JsonSchemaTypes, Diagnostic>(ty),
                None => Err(Diagnostic::at(DiagnosticKind::UnknownType, span)),
            },
    {
        if str_eq(name, "array") {
            Ok(JsonSchemaTypes::Array)
        } else if str_eq(name, "object") {
            Ok(JsonSchemaTypes::Object)
        } else if str_eq(name, "string") {
            Ok(JsonSchemaTypes::String)
        } else if str_eq(name, "number") {
            Ok(JsonSchemaTypes::Number)
        } else {
            Err(Diagnostic::new(DiagnosticKind::UnknownType, span))
        }
    }
}

impl Formats {
    /// How the format is written.
    pub open spec fn name(self) -> Seq<char> {
        match self {
            Formats::Date => "date"@,
            Formats::Time => "time"@,
            Formats::DateTime => "date-time"@,
            Formats::Email => "email"@,
            Formats::Hostname => "hostname"@,
            Formats::Ipv4 => "ipv4"@,
            Formats::Ipv6 => "ipv6"@,
            Formats::Uri => "uri"@,
        }
    }

    /// How the format is written.
    pub fn as_str(&self) -> (name: &'static str)
        ensures
            name@ == self.name(),
    {
        match self {
            Formats::Date => "date",
            Formats::Time => "time",
            Formats::DateTime => "date-time",
            Formats::Email => "email",
            Formats::Hostname => "hostname",
            Formats::Ipv4 => "ipv4",
            Formats::Ipv6 => "ipv6",
            Formats::Uri => "uri",
        }
    }

    /// The format that an identifier names, if it names one.
    pub open spec fn from_name(name: Seq<char>) -> Option<Formats> {
        if name == "date"@ {
            Some(Formats::Date)
        } else if name == "time"@ {
            Some(Formats::Time)
        } else if name == "date-time"@ {
            Some(Formats::DateTime)
        } else if name == "email"@ {
            Some(Formats::Email)
        } else if name == "hostname"@ {
            Some(Formats::Hostname)
        } else if name == "ipv4"@ {
            Some(Formats::Ipv4)
        } else if name == "ipv6"@ {
            Some(Formats::Ipv6)
        } else if name == "uri"@ {
            Some(Formats::Uri)
        } else {
            None
        }
    }

    /// Decodes the identifier found at `span` as a format.
    pub fn try_from(name: &str, span: Span) -> (decoded: Result<Formats, Diagnostic>)
        ensures
            decoded == match Formats::from_name(name@) {
                Some(format) => Ok::<Formats, Diagnostic>(format),
                None => Err(Diagnostic::at(DiagnosticKind::UnknownFormat, span)),
            },
    {
        if str_eq(name, "date") {
            Ok(Formats::Date)
        } else if str_eq(name, "time") {
            Ok(Formats::Time)
        } else if str_eq(name, "date-time") {
            Ok(Formats::DateTime)
        } else if str_eq(name, "email") {
            Ok(Formats::Email)
        } else if str_eq(name, "hostname") {
            Ok(Formats::Hostname)
        } else if str_eq(name, "ipv4") {
            Ok(Formats::Ipv4)
        } else if str_eq(name, "ipv6") {
            Ok(Formats::Ipv6)
        } else if str_eq(name, "uri") {
            Ok(Formats::Uri)
        } else {
            Err(Diagnostic::new(DiagnosticKind::UnknownFormat, span))
        }
    }
}

impl JsonSchemaKeywords {
    /// How the keyword is written.
    pub open spec fn name(self) -> Seq<char> {
        match self {
            JsonSchemaKeywords::Type => "type"@,
            JsonSchemaKeywords::Title => "title"@,
            JsonSchemaKeywords::Required => "required"@,
            JsonSchemaKeywords::Description => "description"@,
            JsonSchemaKeywords::Items => "items"@,
            JsonSchemaKeywords::Properties => "properties"@,
            JsonSchemaKeywords::Default => "default"@,
            JsonSchemaKeywords::Examples => "examples"@,
            JsonSchemaKeywords::Enum => "enum"@,
            JsonSchemaKeywords::Const => "const"@,
            JsonSchemaKeywords::MinLength => "min_length"@,
            JsonSchemaKeywords::MaxLength => "max_length"@,
            JsonSchemaKeywords::Pattern => "pattern"@,
            JsonSchemaKeywords::Format => "format"@,
            JsonSchemaKeywords::Minimum => "minimum"@,
            JsonSchemaKeywords::Maximum => "maximum"@,
            JsonSchemaKeywords::MinItems => "min_items"@,
            JsonSchemaKeywords::MaxItems => "max_items"@,
            JsonSchemaKeywords::UniqueItems => "unique_items"@,
            JsonSchemaKeywords::Contains => "contains"@,
            JsonSchemaKeywords::Struct => "struct"@,
        }
    }

    /// How the keyword is written.
    pub fn as_str(&self) -> (name: &'static str)
        ensures
            name@ == self.name(),
    {
        match self {
            JsonSchemaKeywords::Type => "type",
            JsonSchemaKeywords::Title => "title",
            JsonSchemaKeywords::Required => "required",
            JsonSchemaKeywords::Description => "description",
            JsonSchemaKeywords::Items => "items",
            JsonSchemaKeywords::Properties => "properties",
            JsonSchemaKeywords::Default => "default",
            JsonSchemaKeywords::Examples => "examples",
            JsonSchemaKeywords::Enum => "enum",
            JsonSchemaKeywords::Const => "const",
            JsonSchemaKeywords::MinLength => "min_length",
            JsonSchemaKeywords::MaxLength => "max_length",
            JsonSchemaKeywords::Pattern => "pattern",
            JsonSchemaKeywords::Format => "format",
            JsonSchemaKeywords::Minimum => "minimum",
            JsonSchemaKeywords::Maximum => "maximum",
            JsonSchemaKeywords::MinItems => "min_items",
            JsonSchemaKeywords::MaxItems => "max_items",
            JsonSchemaKeywords::UniqueItems => "unique_items",
            JsonSchemaKeywords::Contains => "contains",
            JsonSchemaKeywords::Struct => "struct",
        }
    }

    /// The type whose schemas the keyword is for, if it is for one type
    /// alone.
    pub open spec fn home(self) -> Option<JsonSchemaTypes> {
        match self {
            JsonSchemaKeywords::MinLength => Some(JsonSchemaTypes::String),
            JsonSchemaKeywords::MaxLength => Some(JsonSchemaTypes::String),
            JsonSchemaKeywords::Pattern => Some(JsonSchemaTypes::String),
            JsonSchemaKeywords::Format => Some(JsonSchemaTypes::String),
            JsonSchemaKeywords::Minimum => Some(JsonSchemaTypes::Number),
            JsonSchemaKeywords::Maximum => Some(JsonSchemaTypes::Number),
            JsonSchemaKeywords::Items => Some(JsonSchemaTypes::Array),
            JsonSchemaKeywords::MinItems => Some(JsonSchemaTypes::Array),
            JsonSchemaKeywords::MaxItems => Some(JsonSchemaTypes::Array),
            JsonSchemaKeywords::UniqueItems => Some(JsonSchemaTypes::Array),
            JsonSchemaKeywords::Contains => Some(JsonSchemaTypes::Array),
            JsonSchemaKeywords::Required => Some(JsonSchemaTypes::Object),
            JsonSchemaKeywords::Properties => Some(JsonSchemaTypes::Object),
            JsonSchemaKeywords::Struct => Some(JsonSchemaTypes::Object),
            _ => None,
        }
    }

    /// The type whose schemas the keyword is for, if it is for one type
    /// alone.
    pub fn home_type(&self) -> (home: Option<JsonSchemaTypes>)
        ensures
            home == self.home(),
    {
        match self {
            JsonSchemaKeywords::MinLength => Some(JsonSchemaTypes::String),
            JsonSchemaKeywords::MaxLength => Some(JsonSchemaTypes::String),
            JsonSchemaKeywords::Pattern => Some(JsonSchemaTypes::String),
            JsonSchemaKeywords::Format => Some(JsonSchemaTypes::String),
            JsonSchemaKeywords::Minimum => Some(JsonSchemaTypes::Number),
            JsonSchemaKeywords::Maximum => Some(JsonSchemaTypes::Number),
            JsonSchemaKeywords::Items => Some(JsonSchemaTypes::Array),
            JsonSchemaKeywords::MinItems => Some(JsonSchemaTypes::Array),
            JsonSchemaKeywords::MaxItems => Some(JsonSchemaTypes::Array),
            JsonSchemaKeywords::UniqueItems => Some(JsonSchemaTypes::Array),
            JsonSchemaKeywords::Contains => Some(JsonSchemaTypes::Array),
            JsonSchemaKeywords::Required => Some(JsonSchemaTypes::Object),
            JsonSchemaKeywords::Properties => Some(JsonSchemaTypes::Object),
            JsonSchemaKeywords::Struct => Some(JsonSchemaTypes::Object),
            _ => None,
        }
    }

    /// The keyword that an identifier names, if it names one.
    pub open spec fn from_name(name: Seq<char>) -> Option<JsonSchemaKeywords> {
        if name == "type"@ {
            Some(JsonSchemaKeywords::Type)
        } else if name == "title"@ {
            Some(JsonSchemaKeywords::Title)
        } else if name == "required"@ {
            Some(JsonSchemaKeywords::Required)
        } else if name == "description"@ {
            Some(JsonSchemaKeywords::Description)
        } else if name == "items"@ {
            Some(JsonSchemaKeywords::Items)
        } else if name == "properties"@ {
            Some(JsonSchemaKeywords::Properties)
        } else if name == "default"@ {
            Some(JsonSchemaKeywords::Default)
        } else if name == "examples"@ {
            Some(JsonSchemaKeywords::Examples)
        } else if name == "enum"@ {
            Some(JsonSchemaKeywords::Enum)
        } else if name == "const"@ {
            Some(JsonSchemaKeywords::Const)
        } else if name == "min_length"@ {
            Some(JsonSchemaKeywords::MinLength)
        } else if name == "max_length"@ {
            Some(JsonSchemaKeywords::MaxLength)
        } else if name == "pattern"@ {
            Some(JsonSchemaKeywords::Pattern)
        } else if name == "format"@ {
            Some(JsonSchemaKeywords::Format)
        } else if name == "minimum"@ {
            Some(JsonSchemaKeywords::Minimum)
        } else if name == "maximum"@ {
            Some(JsonSchemaKeywords::Maximum)
        } else if name == "max_items"@ {
            Some(JsonSchemaKeywords::MaxItems)
        } else if name == "min_items"@ {
            Some(JsonSchemaKeywords::MinItems)
        } else if name == "unique_items"@ {
            Some(JsonSchemaKeywords::UniqueItems)
        } else if name == "contains"@ {
            Some(JsonSchemaKeywords::Contains)
        } else if name == "struct"@ {
            Some(JsonSchemaKeywords::Struct)
        } else {
            None
        }
    }

    /// Decodes the identifier found at `span` as a keyword.
    pub fn try_from(name: &str, span: Span) -> (decoded: Result<JsonSchemaKeywords, Diagnostic>)
        ensures
            decoded == match JsonSchemaKeywords::from_name(name@) {
                Some(keyword) => Ok::<JsonSchemaKeywords, Diagnostic>(keyword),
                None => Err(Diagnostic::at(DiagnosticKind::UnknownKeyword, span)),
            },
    {
        if str_eq(name, "type") {
            Ok(JsonSchemaKeywords::Type)
        } else if str_eq(name, "title") {
            Ok(JsonSchemaKeywords::Title)
        } else if str_eq(name, "required") {
            Ok(JsonSchemaKeywords::Required)
        } else if str_eq(name, "description") {
            Ok(JsonSchemaKeywords::Description)
        } else if str_eq(name, "items") {
            Ok(JsonSchemaKeywords::Items)
        } else if str_eq(name, "properties") {
            Ok(JsonSchemaKeywords::Properties)
        } else if str_eq(name, "default") {
            Ok(JsonSchemaKeywords::Default)
        } else if str_eq(name, "examples") {
            Ok(JsonSchemaKeywords::Examples)
        } else if str_eq(name, "enum") {
            Ok(JsonSchemaKeywords::Enum)
        } else if str_eq(name, "const") {
            Ok(JsonSchemaKeywords::Const)
        } else if str_eq(name, "min_length") {
            Ok(JsonSchemaKeywords::MinLength)
        } else if str_eq(name, "max_length") {
            Ok(JsonSchemaKeywords::MaxLength)
        } else if str_eq(name, "pattern") {
            Ok(JsonSchemaKeywords::Pattern)
        } else if str_eq(name, "format") {
            Ok(JsonSchemaKeywords::Format)
        } else if str_eq(name, "minimum") {
            Ok(JsonSchemaKeywords::Minimum)
        } else if str_eq(name, "maximum") {
            Ok(JsonSchemaKeywords::Maximum)
        } else if str_eq(name, "max_items") {
            Ok(JsonSchemaKeywords::MaxItems)
        } else if str_eq(name, "min_items") {
            Ok(JsonSchemaKeywords::MinItems)
        } else if str_eq(name, "unique_items") {
            Ok(JsonSchemaKeywords::UniqueItems)
        } else if str_eq(name, "contains") {
            Ok(JsonSchemaKeywords::Contains)
        } else if str_eq(name, "struct") {
            Ok(JsonSchemaKeywords::Struct)
        } else {
            Err(Diagnostic::new(DiagnosticKind::UnknownKeyword, span))
        }
    }
}

impl ValueModel {
    /// The text of a string literal.
    pub open spec fn text(self) -> Option<Seq<char>> {
        match self {
            ValueModel::Str(text) => Some(text),
            _ => None,
        }
    }

    /// The number of an integer literal that is not negative.
    pub open spec fn count(self) -> Option<u64> {
        match self {
            ValueModel::Number(n) => if n >= 0 {
                Some(n as u64)
            } else {
                None
            },
            _ => None,
        }
    }

    /// The texts of an array literal that holds string literals only.
    pub open spec fn texts(self) -> Option<Seq<Seq<char>>> {
        match self {
            ValueModel::Array(elements) => if all_strings(elements) {
                Some(strings_of(elements))
            } else {
                None
            },
            _ => None,
        }
    }

    /// The elements of an array literal that holds no identifier.
    pub open spec fn choices(self) -> Option<Seq<ValueModel>> {
        match self {
            ValueModel::Array(elements) => if has_identifier(elements) {
                None
            } else {
                Some(elements)
            },
            _ => None,
        }
    }
}

/// Whether every one of the values is a string literal.
pub open spec fn all_strings(elements: Seq<ValueModel>) -> bool {
    forall|i: int| 0 <= i < elements.len() ==> (#[trigger] elements[i]) is Str
}

/// The texts of a sequence of string literals.
pub open spec fn strings_of(elements: Seq<ValueModel>) -> Seq<Seq<char>> {
    Seq::new(elements.len(), |i: int| elements[i]->Str_0)
}

/// Whether one of the values is an identifier.
pub open spec fn has_identifier(elements: Seq<ValueModel>) -> bool {
    exists|i: int| 0 <= i < elements.len() && (#[trigger] elements[i]) is Ident
}

/// The schema with one field that a keyword and the value after it stand
/// for, or the diagnostic for a value of the wrong shape.
///
/// `at` is the provenance that the field is given; a diagnostic is placed on
/// the value.
pub open spec fn coerce(keyword: JsonSchemaKeywords, value: ValueModel, at: Provenance) -> Result<
    SchemaModel,
    Diagnostic,
> {
    let wrong = Err::<SchemaModel, Diagnostic>(
        Diagnostic::at(DiagnosticKind::WrongValueShape(keyword), at.value),
    );
    let empty = SchemaModel::empty();
    match keyword {
        JsonSchemaKeywords::Type => match value {
            ValueModel::Ident(name) => match JsonSchemaTypes::from_name(name) {
                Some(ty) => Ok(SchemaModel { ty, ty_span: Some(at), ..empty }),
                None => Err(Diagnostic::at(DiagnosticKind::UnknownType, at.value)),
            },
            _ => wrong,
        },
        JsonSchemaKeywords::Struct => match value.text() {
            Some(text) => Ok(SchemaModel { struct_name: Some(Located { value: text, at }), ..empty }),
            None => wrong,
        },
        JsonSchemaKeywords::Title => match value.text() {
            Some(text) => Ok(SchemaModel { title: Some(Located { value: text, at }), ..empty }),
            None => wrong,
        },
        JsonSchemaKeywords::Description => match value.text() {
            Some(text) => Ok(SchemaModel { description: Some(Located { value: text, at }), ..empty }),
            None => wrong,
        },
        JsonSchemaKeywords::Pattern => match value.text() {
            Some(text) => Ok(SchemaModel { pattern: Some(Located { value: text, at }), ..empty }),
            None => wrong,
        },
        JsonSchemaKeywords::Format => match value {
            ValueModel::Ident(name) => match Formats::from_name(name) {
                Some(format) => Ok(
                    SchemaModel { format: Some(Located { value: format, at }), ..empty },
                ),
                None => Err(Diagnostic::at(DiagnosticKind::UnknownFormat, at.value)),
            },
            _ => wrong,
        },
        JsonSchemaKeywords::Minimum => match value.count() {
            Some(n) => Ok(SchemaModel { minimum: Some(Located { value: n, at }), ..empty }),
            None => wrong,
        },
        JsonSchemaKeywords::Maximum => match value.count() {
            Some(n) => Ok(SchemaModel { maximum: Some(Located { value: n, at }), ..empty }),
            None => wrong,
        },
        JsonSchemaKeywords::MinLength => match value.count() {
            Some(n) => Ok(SchemaModel { min_length: Some(Located { value: n, at }), ..empty }),
            None => wrong,
        },
        JsonSchemaKeywords::MaxLength => match value.count() {
            Some(n) => Ok(SchemaModel { max_length: Some(Located { value: n, at }), ..empty }),
            None => wrong,
        },
        JsonSchemaKeywords::MinItems => match value.count() {
            Some(n) => Ok(SchemaModel { min_items: Some(Located { value: n, at }), ..empty }),
            None => wrong,
        },
        JsonSchemaKeywords::MaxItems => match value.count() {
            Some(n) => Ok(SchemaModel { max_items: Some(Located { value: n, at }), ..empty }),
            None => wrong,
        },
        JsonSchemaKeywords::UniqueItems => match value {
            ValueModel::Bool(b) => Ok(
                SchemaModel { unique_items: Some(Located { value: b, at }), ..empty },
            ),
            _ => wrong,
        },
        JsonSchemaKeywords::Default => if value is Ident {
            wrong
        } else {
            Ok(SchemaModel { default: Some(Located { value, at }), ..empty })
        },
        JsonSchemaKeywords::Const => if value is Ident || value is Array {
            wrong
        } else {
            Ok(SchemaModel { const_value: Some(Located { value, at }), ..empty })
        },
        JsonSchemaKeywords::Examples => match value.texts() {
            Some(texts) => Ok(SchemaModel { examples: Some(Located { value: texts, at }), ..empty }),
            None => wrong,
        },
        JsonSchemaKeywords::Required => match value.texts() {
            Some(texts) => Ok(SchemaModel { required: Some(Located { value: texts, at }), ..empty }),
            None => wrong,
        },
        JsonSchemaKeywords::Enum => match value.choices() {
            Some(choices) => Ok(
                SchemaModel { enum_values: Some(Located { value: choices, at }), ..empty },
            ),
            None => wrong,
        },
        JsonSchemaKeywords::Properties => wrong,
        JsonSchemaKeywords::Items => wrong,
        JsonSchemaKeywords::Contains => wrong,
    }
}

/// The schema with one field that a key and the value after it stand for:
/// an unknown key is reported at the key, and a known one is coerced.
pub open spec fn coerce_pair(key: Seq<char>, value: ValueModel, at: Provenance) -> Result<
    SchemaModel,
    Diagnostic,
> {
    match JsonSchemaKeywords::from_name(key) {
        Some(keyword) => coerce(keyword, value, at),
        None => Err(Diagnostic::at(DiagnosticKind::UnknownKeyword, at.key)),
    }
}

/// The texts of `elements`, if all of them are string literals.
fn collect_strings(elements: &Vec<JsonSchemaValues>) -> (texts: Option<Vec<String>>)
    ensures
        texts.deep_view() == ValueModel::Array(elements.deep_view()).texts(),
{
    let mut collected: Vec<String> = Vec::new();
    let mut i: usize = 0;
    while i < elements.len()
        invariant
            i <= elements.len(),
            collected.len() == i,
            forall|j: int| 0 <= j < i ==> (#[trigger] elements.deep_view()[j]) is Str,
            forall|j: int|
                0 <= j < i ==> (#[trigger] collected[j])@ == elements.deep_view()[j]->Str_0,
        decreases elements.len() - i,
    {
        assert(elements.deep_view()[i as int] == elements[i as int]@);
        match &elements[i] {
            JsonSchemaValues::Str(text) => {
                collected.push(text.clone());
            },
            _ => {
                return None;
            },
        }
        i += 1;
    }
    Some(collected)
}

/// Whether one of `elements` is an identifier.
fn contains_identifier(elements: &Vec<JsonSchemaValues>) -> (found: bool)
    ensures
        found == has_identifier(elements.deep_view()),
{
    let mut i: usize = 0;
    while i < elements.len()
        invariant
            i <= elements.len(),
            forall|j: int| 0 <= j < i ==> !((#[trigger] elements.deep_view()[j]) is Ident),
        decreases elements.len() - i,
    {
        assert(elements.deep_view()[i as int] == elements[i as int]@);
        match &elements[i] {
            JsonSchemaValues::Ident(_) => {
                return true;
            },
            _ => {},
        }
        i += 1;
    }
    false
}

impl JsonSchema {
    /// Turns a key and the value after it into a schema with one field.
    ///
    /// `key_span` and `value_span` are the places of the key and of the
    /// value; they become the provenance of the field.
    pub fn try_from(key: &str, key_span: Span, value: JsonSchemaValues, value_span: Span) -> (field:
        Result<JsonSchema, Diagnostic>)
        ensures
            result_model(field) == coerce_pair(
                key@,
                value@,
                Provenance { key: key_span, value: value_span },
            ),
    {
        let keyword = match JsonSchemaKeywords::try_from(key, key_span) {
            Ok(keyword) => keyword,
            Err(unknown) => {
                return Err(unknown);
            },
        };
        let at = Provenance { key: key_span, value: value_span };
        let wrong = Diagnostic::new(DiagnosticKind::WrongValueShape(keyword), value_span);
        let mut schema = JsonSchema::default();
        match keyword {
            JsonSchemaKeywords::Type => match value {
                JsonSchemaValues::Ident(name) => match JsonSchemaTypes::try_from(
                    name.as_str(),
                    value_span,
                ) {
                    Ok(ty) => {
                        schema.ty = ty;
                        schema.ty_span = Some(at);
                    },
                    Err(unknown) => {
                        return Err(unknown);
                    },
                },
                _ => {
                    return Err(wrong);
                },
            },
            JsonSchemaKeywords::Struct => match value {
                JsonSchemaValues::Str(text) => {
                    schema.struct_name = Some(Located { value: text, at });
                },
                _ => {
                    return Err(wrong);
                },
            },
            JsonSchemaKeywords::Title => match value {
                JsonSchemaValues::Str(text) => {
                    schema.title = Some(Located { value: text, at });
                },
                _ => {
                    return Err(wrong);
                },
            },
            JsonSchemaKeywords::Description => match value {
                JsonSchemaValues::Str(text) => {
                    schema.description = Some(Located { value: text, at });
                },
                _ => {
                    return Err(wrong);
                },
            },
            JsonSchemaKeywords::Pattern => match value {
                JsonSchemaValues::Str(text) => {
                    schema.pattern = Some(Located { value: text, at });
                },
                _ => {
                    return Err(wrong);
                },
            },
            JsonSchemaKeywords::Format => match value {
                JsonSchemaValues::Ident(name) => match Formats::try_from(
                    name.as_str(),
                    value_span,
                ) {
                    Ok(format) => {
                        schema.format = Some(Located { value: format, at });
                    },
                    Err(unknown) => {
                        return Err(unknown);
                    },
                },
                _ => {
                    return Err(wrong);
                },
            },
            JsonSchemaKeywords::Minimum => match count_of(&value) {
                Some(n) => {
                    schema.minimum = Some(Located { value: n, at });
                },
                None => {
                    return Err(wrong);
                },
            },
            JsonSchemaKeywords::Maximum => match count_of(&value) {
                Some(n) => {
                    schema.maximum = Some(Located { value: n, at });
                },
                None => {
                    return Err(wrong);
                },
            },
            JsonSchemaKeywords::MinLength => match count_of(&value) {
                Some(n) => {
                    schema.min_length = Some(Located { value: n, at });
                },
                None => {
                    return Err(wrong);
                },
            },
            JsonSchemaKeywords::MaxLength => match count_of(&value) {
                Some(n) => {
                    schema.max_length = Some(Located { value: n, at });
                },
                None => {
                    return Err(wrong);
                },
            },
            JsonSchemaKeywords::MinItems => match count_of(&value) {
                Some(n) => {
                    schema.min_items = Some(Located { value: n, at });
                },
                None => {
                    return Err(wrong);
                },
            },
            JsonSchemaKeywords::MaxItems => match count_of(&value) {
                Some(n) => {
                    schema.max_items = Some(Located { value: n, at });
                },
                None => {
                    return Err(wrong);
                },
            },
            JsonSchemaKeywords::UniqueItems => match value {
                JsonSchemaValues::Bool(b) => {
                    schema.unique_items = Some(Located { value: b, at });
                },
                _ => {
                    return Err(wrong);
                },
            },
            JsonSchemaKeywords::Default => match value {
                JsonSchemaValues::Ident(_) => {
                    return Err(wrong);
                },
                other => {
                    schema.default = Some(Located { value: other, at });
                },
            },
            JsonSchemaKeywords::Const => match value {
                JsonSchemaValues::Ident(_) => {
                    return Err(wrong);
                },
                JsonSchemaValues::Array(_) => {
                    return Err(wrong);
                },
                other => {
                    schema.const_value = Some(Located { value: other, at });
                },
            },
            JsonSchemaKeywords::Examples => match value {
                JsonSchemaValues::Array(elements) => {
                    proof {
                        lemma_array_view(elements);
                    }
                    match collect_strings(&elements) {
                        Some(texts) => {
                            schema.examples = Some(Located { value: texts, at });
                        },
                        None => {
                            return Err(wrong);
                        },
                    }
                },
                _ => {
                    return Err(wrong);
                },
            },
            JsonSchemaKeywords::Required => match value {
                JsonSchemaValues::Array(elements) => {
                    proof {
                        lemma_array_view(elements);
                    }
                    match collect_strings(&elements) {
                        Some(texts) => {
                            schema.required = Some(Located { value: texts, at });
                        },
                        None => {
                            return Err(wrong);
                        },
                    }
                },
                _ => {
                    return Err(wrong);
                },
            },
            JsonSchemaKeywords::Enum => match value {
                JsonSchemaValues::Array(elements) => {
                    proof {
                        lemma_array_view(elements);
                    }
                    if contains_identifier(&elements) {
                        return Err(wrong);
                    }
                    schema.enum_values = Some(Located { value: elements, at });
                },
                _ => {
                    return Err(wrong);
                },
            },
            JsonSchemaKeywords::Properties => {
                return Err(wrong);
            },
            JsonSchemaKeywords::Items => {
                return Err(wrong);
            },
            JsonSchemaKeywords::Contains => {
                return Err(wrong);
            },
        }
        Ok(schema)
    }
}

/// The number of an integer literal that is not negative.
fn count_of(value: &JsonSchemaValues) -> (count: Option<u64>)
    ensures
        count == value@.count(),
{
    match value {
        JsonSchemaValues::Number(n) => if *n >= 0 {
            Some(*n as u64)
        } else {
            None
        },
        _ => None,
    }
}

} // verus!
