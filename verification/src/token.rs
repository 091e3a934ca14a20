//! Tokens as the lexical scanner hands them to the parser: a classification
//! tag, a text value, and a source position. The parser never recurses into a
//! bracket token's contents; the scanner has already matched delimiter pairs
//! into single tokens.

use vstd::prelude::*;

verus! {

/// Classification tags of the tokens the parser consumes. `Keyword1` and
/// `Keyword2` are two reserved-word subclasses with distinct grammatical
/// roles; `Curly`, `Round`, `Square` and `Angle` are pre-grouped bracket
/// tokens treated as atomic lookahead units.
#[derive(Clone, Copy, PartialEq, Eq, Structural, Debug)]
pub enum TokenType {
    Identifier,
    Keyword,
    Keyword1,
    Keyword2,
    Curly,
    Round,
    Square,
    Angle,
    Include,
    StaticExecution,
    Comment,
    String,
}

/// One lexical token: tag, text value and source position. Immutable once
/// produced by the scanner.
pub struct Token {
    pub token_type: TokenType,
    pub value: String,
    pub line: usize,
    pub column: usize,
}

/// A source position, as the symbol table records it.
#[derive(Clone, Copy, PartialEq, Eq, Structural, Debug)]
pub struct LexerState {
    pub line: usize,
    pub column: usize,
}

/// The mathematical model of a token: the same fields with the text value as
/// a sequence of characters.
pub struct TokenModel {
    pub token_type: TokenType,
    pub value: Seq<char>,
    pub line: usize,
    pub column: usize,
}

impl View for Token {
    type V = TokenModel;

    open spec fn view(&self) -> TokenModel {
        TokenModel {
            token_type: self.token_type,
            value: self.value@,
            line: self.line,
            column: self.column,
        }
    }
}

impl DeepView for Token {
    type V = TokenModel;

    open spec fn deep_view(&self) -> TokenModel {
        self.view()
    }
}

impl Clone for Token {
    fn clone(&self) -> (r: Token)
        ensures
            r == *self,
    {
        Token {
            token_type: self.token_type,
            value: self.value.clone(),
            line: self.line,
            column: self.column,
        }
    }
}

} // verus!
