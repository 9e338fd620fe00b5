//! The tokens of an invocation's arguments.

use proc_macro2::{TokenStream, TokenTree};
use std::str::FromStr;
use syn::Lit;
use vstd::prelude::*;

verus! {

/// One token of an invocation's arguments, with what the option grammar
/// reads of it.
#[derive(Clone, Debug, PartialEq, Eq)]
pub enum Token {
    /// An identifier, by its name.
    Ident(String),
    /// A punctuation character.
    Punct(char),
    /// A string literal, by the text it stands for.
    Text(String),
    /// An integer literal, by its decimal digits.
    Number(String),
    /// Any other literal, or a bracketed group.
    Other,
}

/// What a `Token` is in contracts.
pub enum TokenShape {
    Ident(Seq<char>),
    Punct(char),
    Text(Seq<char>),
    Number(Seq<char>),
    Other,
}

impl View for Token {
    type V = TokenShape;

    open spec fn view(&self) -> TokenShape {
        match *self {
            Token::Ident(name) => TokenShape::Ident(name@),
            Token::Punct(mark) => TokenShape::Punct(mark),
            Token::Text(text) => TokenShape::Text(text@),
            Token::Number(digits) => TokenShape::Number(digits@),
            Token::Other => TokenShape::Other,
        }
    }
}

/// The shapes of a run of tokens, in order.
pub open spec fn shapes(tokens: Seq<Token>) -> Seq<TokenShape> {
    Seq::new(tokens.len(), |i: int| tokens[i]@)
}

/// The shapes of what a tokenizer handed back.
pub open spec fn lexed_shapes(lexed: Option<Vec<Token>>) -> Option<Seq<TokenShape>> {
    match lexed {
        Some(tokens) => Some(shapes(tokens@)),
        None => None,
    }
}

/// The tokens that `text` splits into under the host language's lexical
/// rules, or `None` where it does not split into tokens at all.
pub uninterp spec fn tokens_of(text: Seq<char>) -> Option<Seq<TokenShape>>;

/// Splits `text` into tokens with `proc_macro2::TokenStream::from_str` and
/// reads each literal with `syn::Lit::new`. The contract gives the outcome
/// the name `tokens_of(text)` and claims nothing else: which tokens a text
/// splits into is the lexer's business. To give it a name is to trust that
/// the lexer splits one text the same way wherever it runs, inside the
/// compiler and outside of it. A string literal arrives as the text it
/// denotes (`syn::LitStr::value`), an integer literal as its digits in base
/// ten (`syn::LitInt::base10_digits`), and only the top level is kept: a
/// bracketed group arrives as one `Other`.
#[verifier::external_body]
pub(crate) fn lex(text: &str) -> (lexed: Option<Vec<Token>>)
    ensures
        lexed_shapes(lexed) == tokens_of(text@),
{
    let stream = TokenStream::from_str(text).ok()?;
    Some(stream.into_iter().map(|tree| match tree {
        TokenTree::Ident(word) => Token::Ident(word.to_string()),
        TokenTree::Punct(mark) => Token::Punct(mark.as_char()),
        TokenTree::Group(_) => Token::Other,
        TokenTree::Literal(literal) => match Lit::new(literal) {
            Lit::Str(text) => Token::Text(text.value()),
            Lit::Int(number) => Token::Number(number.base10_digits().to_string()),
            _ => Token::Other,
        },
    }).collect())
}

} // verus!
