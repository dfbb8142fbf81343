//! The tokens that the lexer hands to the parser.

use vstd::prelude::*;

verus! {

/// One token. Besides what stands in the source there are three layout
/// tokens, which the lexer puts in from the indentation: they open a block,
/// part its items and close it.
#[derive(PartialEq, Eq, Debug, Clone)]
pub enum Token {
    IntegerLiteral(usize),
    StringLiteral(String),
    CharLiteral(char),
    Identifier(String),
    /// The start of an indented block.
    LayoutStart,
    /// The boundary between two items of an indented block.
    LayoutSep,
    /// The end of an indented block.
    LayoutEnd,
    LeftParen,
    RightParen,
    LeftBrace,
    RightBrace,
    LeftBracket,
    RightBracket,
    Backtick,
    Equal,
    Pipe,
    Comma,
    Colon,
    Semicolon,
    Dot,
    /// `->`
    Arrow,
    /// `=>`
    FatArrow,
    /// `::`
    TypeOf,
    /// `<-`
    Bind,
    Operator(String),
    If,
    Then,
    Else,
    Ado,
    Do,
    Let,
    In,
    Where,
}

/// A token with its place in the source.
#[derive(PartialEq, Eq, Debug, Clone)]
pub struct TokenInfo {
    pub token: Token,
    /// Where the whitespace before the token starts.
    pub whitespace_start: usize,
    /// Where the token itself starts.
    pub start: usize,
    pub end: usize,
    /// The indentation level: the column of the first token of the line.
    pub indent_level: usize,
    /// The column of the token, counted from zero.
    pub column: usize,
    pub newline_before: bool,
}

} // verus!
