//! The token tree that the grammar is written over.

use crate::diagnostics::Span;
use vstd::prelude::*;

verus! {

/// The brackets around a group of tokens.
#[derive(Clone, Copy, Debug, PartialEq, Eq, Structural)]
pub enum Delimiter {
    Brace,
    Bracket,
    Parenthesis,
}

/// One token, or a bracketed group of tokens.
#[derive(Debug, PartialEq, Eq)]
pub enum Token {
    /// A word: a keyword, a type, a format, `true` or `false`.
    Ident(String, Span),
    /// A single punctuation character.
    Punct(char, Span),
    /// A string literal, by the text that it denotes.
    Str(String, Span),
    /// An integer literal, by its value if the value fits into 64 bits.
    Int(Option<i64>, Span),
    /// A character literal.
    Char(char, Span),
    /// Tokens between a pair of brackets.
    Group(Delimiter, Vec<Token>, Span),
    /// A literal that the grammar has no use for.
    Other(Span),
}

/// The mathematical value of a [`Token`].
pub enum TokenModel {
    Ident(Seq<char>, Span),
    Punct(char, Span),
    Str(Seq<char>, Span),
    Int(Option<i64>, Span),
    Char(char, Span),
    Group(Delimiter, Seq<TokenModel>, Span),
    Other(Span),
}

impl TokenModel {
    /// The place of the token in the source.
    pub open spec fn span(self) -> Span {
        match self {
            TokenModel::Ident(_, span) => span,
            TokenModel::Punct(_, span) => span,
            TokenModel::Str(_, span) => span,
            TokenModel::Int(_, span) => span,
            TokenModel::Char(_, span) => span,
            TokenModel::Group(_, _, span) => span,
            TokenModel::Other(span) => span,
        }
    }

    /// Whether the token is the punctuation character `symbol`.
    pub open spec fn is_punct(self, symbol: char) -> bool {
        self matches TokenModel::Punct(c, _) && c == symbol
    }
}

impl Token {
    /// The mathematical value of the token.
    pub open spec fn model(&self) -> TokenModel
        decreases self,
    {
        match self {
            Token::Ident(name, span) => TokenModel::Ident(name@, *span),
            Token::Punct(symbol, span) => TokenModel::Punct(*symbol, *span),
            Token::Str(text, span) => TokenModel::Str(text@, *span),
            Token::Int(n, span) => TokenModel::Int(*n, *span),
            Token::Char(c, span) => TokenModel::Char(*c, *span),
            Token::Group(delimiter, tokens, span) => TokenModel::Group(
                *delimiter,
                Seq::new(
                    tokens.len() as nat,
                    |i: int|
                        if 0 <= i < tokens.len() {
                            tokens[i].model()
                        } else {
                            arbitrary()
                        },
                ),
                *span,
            ),
            Token::Other(span) => TokenModel::Other(*span),
        }
    }
}

impl View for Token {
    type V = TokenModel;

    open spec fn view(&self) -> TokenModel {
        self.model()
    }
}

impl DeepView for Token {
    type V = TokenModel;

    open spec fn deep_view(&self) -> TokenModel {
        self.model()
    }
}

impl Token {
    /// The place of the token in the source.
    pub fn span(&self) -> (span: Span)
        ensures
            span == self@.span(),
    {
        match self {
            Token::Ident(_, span) => *span,
            Token::Punct(_, span) => *span,
            Token::Str(_, span) => *span,
            Token::Int(_, span) => *span,
            Token::Char(_, span) => *span,
            Token::Group(_, _, span) => *span,
            Token::Other(span) => *span,
        }
    }

    /// Whether the token is the punctuation character `symbol`.
    pub fn is_punct(&self, symbol: char) -> (found: bool)
        ensures
            found == self@.is_punct(symbol),
    {
        match self {
            Token::Punct(c, _) => *c == symbol,
            _ => false,
        }
    }
}

impl Clone for Token {
    fn clone(&self) -> (copy: Token)
        ensures
            copy@ == self@,
        decreases self,
    {
        match self {
            Token::Ident(name, span) => Token::Ident(name.clone(), *span),
            Token::Punct(symbol, span) => Token::Punct(*symbol, *span),
            Token::Str(text, span) => Token::Str(text.clone(), *span),
            Token::Int(n, span) => Token::Int(*n, *span),
            Token::Char(c, span) => Token::Char(*c, *span),
            Token::Group(delimiter, tokens, span) => {
                let mut copies: Vec<Token> = Vec::new();
                let mut i: usize = 0;
                while i < tokens.len()
                    invariant
                        i <= tokens.len(),
                        copies.len() == i,
                        decreases_to!(self => tokens),
                        forall|j: int| 0 <= j < i ==> (#[trigger] copies[j])@ == tokens[j]@,
                    decreases tokens.len() - i,
                {
                    copies.push(tokens[i].clone());
                    i += 1;
                }
                proof {
                    lemma_group_view(*delimiter, *tokens, *span);
                    lemma_group_view(*delimiter, copies, *span);
                    assert(copies.deep_view() =~= tokens.deep_view());
                }
                Token::Group(*delimiter, copies, *span)
            },
            Token::Other(span) => Token::Other(*span),
        }
    }
}

/// The tokens inside a group are the views of the tokens that it holds.
pub proof fn lemma_group_view(delimiter: Delimiter, tokens: Vec<Token>, span: Span)
    ensures
        Token::Group(delimiter, tokens, span)@ == TokenModel::Group(
            delimiter,
            tokens.deep_view(),
            span,
        ),
{
    let inner = Token::Group(delimiter, tokens, span)@->Group_1;
    assert(inner =~= tokens.deep_view());
}

} // verus!
