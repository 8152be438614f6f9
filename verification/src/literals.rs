//! The grammar of literals: what may stand after a colon.
//!
//! A literal is an identifier, a string, an integer, a character, `true`,
//! `false`, or a bracketed list of literals separated by commas. The list may
//! be empty and may end in a comma. An integer that does not fit into 64
//! bits counts as zero.

use crate::diagnostics::{result_model, Diagnostic, DiagnosticKind};
use crate::models::{lemma_array_view, JsonSchemaValues, ValueModel};
use crate::text::str_eq;
use crate::tokens::{lemma_group_view, Delimiter, Token, TokenModel};
use vstd::prelude::*;

verus! {

/// The value that a token denotes, or the diagnostic for a token that is no
/// literal.
pub open spec fn literal_value(token: TokenModel) -> Result<ValueModel, Diagnostic>
    decreases token, 0int,
{
    match token {
        TokenModel::Ident(name, _) => Ok(
            if name == "true"@ {
                ValueModel::Bool(true)
            } else if name == "false"@ {
                ValueModel::Bool(false)
            } else {
                ValueModel::Ident(name)
            },
        ),
        TokenModel::Str(text, _) => Ok(ValueModel::Str(text)),
        TokenModel::Int(n, _) => Ok(
            ValueModel::Number(
                match n {
                    Some(n) => n,
                    None => 0,
                },
            ),
        ),
        TokenModel::Char(c, _) => Ok(ValueModel::Char(c)),
        TokenModel::Group(delimiter, elements, span) => if delimiter == Delimiter::Bracket {
            match literal_list(elements, 0, Seq::empty()) {
                Ok(values) => Ok(ValueModel::Array(values)),
                Err(diagnostic) => Err(diagnostic),
            }
        } else {
            Err(Diagnostic::at(DiagnosticKind::ExpectedValue, span))
        },
        TokenModel::Punct(_, span) => Err(Diagnostic::at(DiagnosticKind::ExpectedValue, span)),
        TokenModel::Other(span) => Err(Diagnostic::at(DiagnosticKind::ExpectedValue, span)),
    }
}

/// The values of the list of literals that starts at `pos`, after the
/// `values` read so far, or the first diagnostic.
pub open spec fn literal_list(tokens: Seq<TokenModel>, pos: int, values: Seq<ValueModel>) -> Result<
    Seq<ValueModel>,
    Diagnostic,
>
    decreases tokens, tokens.len() - pos,
{
    if pos < 0 || pos >= tokens.len() {
        Ok(values)
    } else {
        match literal_value(tokens[pos]) {
            Err(diagnostic) => Err(diagnostic),
            Ok(value) => if pos + 1 >= tokens.len() {
                Ok(values.push(value))
            } else if tokens[pos + 1].is_punct(',') {
                literal_list(tokens, pos + 2, values.push(value))
            } else {
                Err(Diagnostic::at(DiagnosticKind::ExpectedComma, tokens[pos + 1].span()))
            },
        }
    }
}

impl JsonSchemaValues {
    /// Reads one token as a literal.
    pub fn try_from(token: &Token) -> (value: Result<JsonSchemaValues, Diagnostic>)
        ensures
            result_model(value) == literal_value(token@),
        decreases token, 0int,
    {
        match token {
            Token::Ident(name, _) => {
                if str_eq(name.as_str(), "true") {
                    Ok(JsonSchemaValues::Bool(true))
                } else if str_eq(name.as_str(), "false") {
                    Ok(JsonSchemaValues::Bool(false))
                } else {
                    Ok(JsonSchemaValues::Ident(name.clone()))
                }
            },
            Token::Str(text, _) => Ok(JsonSchemaValues::Str(text.clone())),
            Token::Int(n, _) => Ok(
                JsonSchemaValues::Number(
                    match n {
                        Some(n) => *n,
                        None => 0,
                    },
                ),
            ),
            Token::Char(c, _) => Ok(JsonSchemaValues::Char(*c)),
            Token::Group(delimiter, elements, span) => {
                proof {
                    lemma_group_view(*delimiter, *elements, *span);
                }
                match delimiter {
                    Delimiter::Bracket => match literal_elements(elements) {
                        Ok(values) => {
                            proof {
                                lemma_array_view(values);
                            }
                            Ok(JsonSchemaValues::Array(values))
                        },
                        Err(diagnostic) => Err(diagnostic),
                    },
                    _ => Err(Diagnostic::new(DiagnosticKind::ExpectedValue, *span)),
                }
            },
            Token::Punct(_, span) => Err(Diagnostic::new(DiagnosticKind::ExpectedValue, *span)),
            Token::Other(span) => Err(Diagnostic::new(DiagnosticKind::ExpectedValue, *span)),
        }
    }
}

/// Reads the tokens between a pair of brackets as a list of literals.
fn literal_elements(tokens: &Vec<Token>) -> (values: Result<Vec<JsonSchemaValues>, Diagnostic>)
    ensures
        result_model(values) == literal_list(tokens.deep_view(), 0, Seq::empty()),
    decreases tokens, 1int,
{
    let mut values: Vec<JsonSchemaValues> = Vec::new();
    let mut pos: usize = 0;
    assert(values.deep_view() =~= Seq::<ValueModel>::empty());
    while pos < tokens.len()
        invariant
            pos <= tokens.len(),
            literal_list(tokens.deep_view(), pos as int, values.deep_view()) == literal_list(
                tokens.deep_view(),
                0,
                Seq::empty(),
            ),
        decreases tokens.len() - pos,
    {
        let value = match JsonSchemaValues::try_from(&tokens[pos]) {
            Ok(value) => value,
            Err(diagnostic) => {
                return Err(diagnostic);
            },
        };
        let ghost before = values.deep_view();
        values.push(value);
        assert(values.deep_view() =~= before.push(value@));
        if pos + 1 >= tokens.len() {
            return Ok(values);
        }
        if !tokens[pos + 1].is_punct(',') {
            return Err(Diagnostic::new(DiagnosticKind::ExpectedComma, tokens[pos + 1].span()));
        }
        pos += 2;
    }
    Ok(values)
}

} // verus!
