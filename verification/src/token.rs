//! The tokens the lexer hands to the parser.
//!
//! The lexer and parser themselves are collaborators outside this crate's
//! core; the token vocabulary lives here because diagnostics and the data
//! model share it. Tokens that carry data carry it as a runtime value —
//! a boolean token holds a `Data::Boolean(...)`, not a string.

use vstd::prelude::*;
use crate::data::Data;

verus! {

/// One lexical token. `Symbol` and `Kind` are identified by their source
/// span rather than by a carried value; `End` marks the end of the source.
#[derive(Debug, Clone, PartialEq, Eq)]
pub enum Token {
    // Delimiters
    OpenBracket,
    CloseBracket,
    OpenParen,
    CloseParen,
    Sep,
    Assign,
    Lambda,
    Print,
    // Datatypes
    Unit,
    Number(Data),
    String(Data),
    Boolean(Data),
    // Specified by span rather than an actual value
    Symbol,
    Kind,
    // End of source
    End,
}

/// The words a diagnostic describes each token with.
pub open spec fn token_message(token: Token) -> Seq<char> {
    match token {
        Token::OpenBracket => "an opening bracket"@,
        Token::CloseBracket => "a closing bracket"@,
        Token::OpenParen => "an openening paren"@,
        Token::CloseParen => "a closing paren"@,
        Token::Sep => "a separator"@,
        Token::Assign => "an assignment"@,
        Token::Lambda => "a lambda"@,
        Token::Print => "a print keyword"@,
        Token::Unit => "the Unit, '()'"@,
        Token::Number(_) => "a number"@,
        Token::String(_) => "a string"@,
        Token::Boolean(_) => "a boolean, like 'true' or 'false'"@,
        Token::Symbol => "a symbol"@,
        Token::Kind => "a Label"@,
        Token::End => "end of source"@,
    }
}

impl Token {
    /// Pretty wording for messages; use the debug form when not printing
    /// a message or something like it.
    pub fn describe(&self) -> (message: &'static str)
        ensures
            message@ == token_message(*self),
    {
        match self {
            Token::OpenBracket => "an opening bracket",
            Token::CloseBracket => "a closing bracket",
            Token::OpenParen => "an openening paren",
            Token::CloseParen => "a closing paren",
            Token::Sep => "a separator",
            Token::Assign => "an assignment",
            Token::Lambda => "a lambda",
            Token::Print => "a print keyword",
            Token::Unit => "the Unit, '()'",
            Token::Number(_) => "a number",
            Token::String(_) => "a string",
            Token::Boolean(_) => "a boolean, like 'true' or 'false'",
            Token::Symbol => "a symbol",
            Token::Kind => "a Label",  // capitalized to mimic actual labels
            Token::End => "end of source",
        }
    }
}

} // verus!
