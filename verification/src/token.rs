//! The token alphabet produced by the lexer.

use vstd::prelude::*;

verus! {

/// One lexical unit of the source language.
#[derive(Debug, PartialEq, Clone)]
pub enum Token {
    /// A run of whitespace characters, collapsed to one token.
    Whitespace,
    /// `:`
    Colon,
    /// `(`
    LParen,
    /// `)`
    RParen,
    /// `=`
    Eq,
    /// `@`
    At,
    /// `_`
    Underscore,
    /// A run of identifier characters.
    Word(String),
    /// The text captured verbatim between `[` and `]`.
    RawValue(String),
}

/// The mathematical shape of a token.
pub enum TokenV {
    Whitespace,
    Colon,
    LParen,
    RParen,
    Eq,
    At,
    Underscore,
    Word(Seq<char>),
    RawValue(Seq<char>),
}

impl View for Token {
    type V = TokenV;

    open spec fn view(&self) -> TokenV {
        match self {
            Token::Whitespace => TokenV::Whitespace,
            Token::Colon => TokenV::Colon,
            Token::LParen => TokenV::LParen,
            Token::RParen => TokenV::RParen,
            Token::Eq => TokenV::Eq,
            Token::At => TokenV::At,
            Token::Underscore => TokenV::Underscore,
            Token::Word(s) => TokenV::Word(s@),
            Token::RawValue(s) => TokenV::RawValue(s@),
        }
    }
}

impl DeepView for Token {
    type V = TokenV;

    open spec fn deep_view(&self) -> TokenV {
        self.view()
    }
}

} // verus!
