//! Source locations and the messages that the compiler attaches to them.

use crate::models::{JsonSchemaKeywords, JsonSchemaTypes};
use vstd::prelude::*;
use vstd::string::StringExecFns;

verus! {

/// A region of the source text, as a pair of offsets.
///
/// The library never looks inside a span; it only carries spans from tokens to
/// schema fields and diagnostics.
#[derive(Clone, Copy, Debug, PartialEq, Eq, Structural)]
pub struct Span {
    pub start: usize,
    pub end: usize,
}

/// Where a field of a schema came from: the place of its key and the place
/// of its value.
#[derive(Clone, Copy, Debug, PartialEq, Eq, Structural)]
pub struct Provenance {
    pub key: Span,
    pub value: Span,
}

/// A value together with its provenance.
#[derive(Clone, Debug, PartialEq, Eq)]
pub struct Located<T> {
    pub value: T,
    pub at: Provenance,
}

impl<T: DeepView> DeepView for Located<T> {
    type V = Located<T::V>;

    open spec fn deep_view(&self) -> Located<T::V> {
        Located { value: self.value.deep_view(), at: self.at }
    }
}

/// What went wrong.
#[derive(Clone, Copy, Debug, PartialEq, Eq, Structural)]
pub enum DiagnosticKind {
    /// Two fields are not separated by a comma.
    ExpectedComma,
    /// A field does not start with an identifier.
    ExpectedKey,
    /// A key is not followed by a colon.
    ExpectedColon,
    /// A key and its colon are not followed by a literal of the grammar.
    ExpectedValue,
    /// `properties` is not followed by a brace-delimited block.
    ExpectedPropertiesBlock,
    /// An entry of a `properties` block does not start with a string literal.
    ExpectedPropertyName,
    /// The name of a property is not followed by a brace-delimited schema.
    ExpectedSchemaBlock,
    /// `items` or `contains` is followed by neither a type nor a schema block.
    ExpectedTypeOrSchema,
    /// The identifier is not a keyword of the dialect.
    UnknownKeyword,
    /// The identifier given as a type is not one of the four types.
    UnknownType,
    /// The identifier given as a format is not a supported format.
    UnknownFormat,
    /// The value does not have the shape that the keyword accepts.
    WrongValueShape(JsonSchemaKeywords),
    /// The keyword, which may occur once, occurs again.
    DuplicateKey(JsonSchemaKeywords),
    /// A schema block ends without a `type`.
    TypeNotSet,
    /// `required` is present and `properties` is not.
    RequiredWithoutProperties,
    /// `required` does not have as many entries as there are properties.
    RequiredCountMismatch,
    /// A property is missing from `required`.
    RequiredMembershipMismatch,
    /// The root schema has no `struct` name.
    MissingRootName,
    /// The root schema is named `key`.
    ReservedRootName,
    /// Schemas are nested deeper than a depth counter can count.
    NestingTooDeep,
    /// The keyword belongs to another type than the one the schema declares.
    MisusedKey(JsonSchemaKeywords),
    /// `struct` names a schema that is not an object.
    StructNameOnNonObject,
}

impl DiagnosticKind {
    /// Whether a diagnostic of this kind is reported without stopping the
    /// compilation.
    pub open spec fn recoverable(self) -> bool {
        self is MisusedKey || self is StructNameOnNonObject
    }

    /// Whether a diagnostic of this kind stops the compilation.
    pub fn is_fatal(&self) -> (fatal: bool)
        ensures
            fatal == !self.recoverable(),
    {
        match self {
            DiagnosticKind::MisusedKey(_) => false,
            DiagnosticKind::StructNameOnNonObject => false,
            _ => true,
        }
    }
}

impl DiagnosticKind {
    /// The words of the message.
    pub open spec fn message(self) -> Seq<char> {
        match self {
            DiagnosticKind::ExpectedComma => "expected `,`"@,
            DiagnosticKind::ExpectedKey => "expected a keyword"@,
            DiagnosticKind::ExpectedColon => "expected `:`"@,
            DiagnosticKind::ExpectedValue => "expected a literal"@,
            DiagnosticKind::ExpectedPropertiesBlock => "expected `properties: {key: {...}, ...}`"@,
            DiagnosticKind::ExpectedPropertyName => "expected the name of a property, as a string"@,
            DiagnosticKind::ExpectedSchemaBlock => "expected a brace-delimited group"@,
            DiagnosticKind::ExpectedTypeOrSchema => "the value must be either a type or a nested schema"@,
            DiagnosticKind::UnknownKeyword => "unknown keyword"@,
            DiagnosticKind::UnknownType => "unknown type"@,
            DiagnosticKind::UnknownFormat => "unsupported format, available are: `date`, `time`, `date-time`, `email`, `hostname`, `ipv4`, `ipv6`, `uri`"@,
            DiagnosticKind::WrongValueShape(keyword) => "invalid value for `"@ + keyword.name()
                + "`"@,
            DiagnosticKind::DuplicateKey(keyword) => "remove the duplicated key `"@
                + keyword.name() + "`"@,
            DiagnosticKind::TypeNotSet => "`type` must be set"@,
            DiagnosticKind::RequiredWithoutProperties => "make sure to implement what's in the required"@,
            DiagnosticKind::RequiredCountMismatch => "make sure to implement all the required properties"@,
            DiagnosticKind::RequiredMembershipMismatch => "make sure all the properties keys match what's in the required"@,
            DiagnosticKind::MissingRootName => "the first `struct` key is required, consider adding it"@,
            DiagnosticKind::ReservedRootName => "you can't use `key` from the root schema"@,
            DiagnosticKind::NestingTooDeep => "schemas are nested too deep"@,
            DiagnosticKind::MisusedKey(keyword) => "you can't use `"@ + keyword.name()
                + "` in a non "@ + (match keyword.home() {
                Some(home) => home.name(),
                None => JsonSchemaTypes::Unset.name(),
            }) + " type"@,
            DiagnosticKind::StructNameOnNonObject => "`struct` is only allowed in an object type"@,
        }
    }
}

/// One message, tied to the place in the source that it is about.
#[derive(Clone, Copy, Debug, PartialEq, Eq, Structural)]
pub struct Diagnostic {
    pub kind: DiagnosticKind,
    pub span: Span,
}

impl Diagnostic {
    /// The diagnostic of the given kind at the given place.
    pub open spec fn at(kind: DiagnosticKind, span: Span) -> Diagnostic {
        Diagnostic { kind, span }
    }

    /// The diagnostic of the given kind at the given place.
    #[verifier::when_used_as_spec(at)]
    pub fn new(kind: DiagnosticKind, span: Span) -> (diagnostic: Diagnostic)
        ensures
            diagnostic == Diagnostic::at(kind, span),
    {
        Diagnostic { kind, span }
    }

    /// The words of the message.
    pub fn message(&self) -> (words: String)
        ensures
            words@ == self.kind.message(),
    {
        match self.kind {
            DiagnosticKind::ExpectedComma => "expected `,`".to_owned(),
            DiagnosticKind::ExpectedKey => "expected a keyword".to_owned(),
            DiagnosticKind::ExpectedColon => "expected `:`".to_owned(),
            DiagnosticKind::ExpectedValue => "expected a literal".to_owned(),
            DiagnosticKind::ExpectedPropertiesBlock => "expected `properties: {key: {...}, ...}`".to_owned(),
            DiagnosticKind::ExpectedPropertyName => "expected the name of a property, as a string".to_owned(),
            DiagnosticKind::ExpectedSchemaBlock => "expected a brace-delimited group".to_owned(),
            DiagnosticKind::ExpectedTypeOrSchema => "the value must be either a type or a nested schema".to_owned(),
            DiagnosticKind::UnknownKeyword => "unknown keyword".to_owned(),
            DiagnosticKind::UnknownType => "unknown type".to_owned(),
            DiagnosticKind::UnknownFormat => "unsupported format, available are: `date`, `time`, `date-time`, `email`, `hostname`, `ipv4`, `ipv6`, `uri`".to_owned(),
            DiagnosticKind::WrongValueShape(keyword) => {
                let mut words = "invalid value for `".to_owned();
                words.append(keyword.as_str());
                words.append("`");
                words
            },
            DiagnosticKind::DuplicateKey(keyword) => {
                let mut words = "remove the duplicated key `".to_owned();
                words.append(keyword.as_str());
                words.append("`");
                words
            },
            DiagnosticKind::TypeNotSet => "`type` must be set".to_owned(),
            DiagnosticKind::RequiredWithoutProperties => "make sure to implement what's in the required".to_owned(),
            DiagnosticKind::RequiredCountMismatch => "make sure to implement all the required properties".to_owned(),
            DiagnosticKind::RequiredMembershipMismatch => "make sure all the properties keys match what's in the required".to_owned(),
            DiagnosticKind::MissingRootName => "the first `struct` key is required, consider adding it".to_owned(),
            DiagnosticKind::ReservedRootName => "you can't use `key` from the root schema".to_owned(),
            DiagnosticKind::NestingTooDeep => "schemas are nested too deep".to_owned(),
            DiagnosticKind::MisusedKey(keyword) => {
                let home = match keyword.home_type() {
                    Some(home) => home,
                    None => JsonSchemaTypes::Unset,
                };
                let mut words = "you can't use `".to_owned();
                words.append(keyword.as_str());
                words.append("` in a non ");
                words.append(home.as_str());
                words.append(" type");
                words
            },
            DiagnosticKind::StructNameOnNonObject => "`struct` is only allowed in an object type".to_owned(),
        }
    }
}

/// The mathematical value of a result: of what was produced, or the
/// diagnostic given in its place.
pub open spec fn result_model<T: DeepView>(result: Result<T, Diagnostic>) -> Result<
    T::V,
    Diagnostic,
> {
    match result {
        Ok(value) => Ok(value.deep_view()),
        Err(diagnostic) => Err(diagnostic),
    }
}

} // verus!
