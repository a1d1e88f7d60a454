//! Tokens: a tag from a fixed set plus a span. The structural tags INDENT and
//! DEDENT are synthesized by the lexer from the whitespace layout; they never
//! correspond to source characters. Literal tags carry the raw lexeme text.

use vstd::prelude::*;

use crate::span::Span;

verus! {

#[derive(Debug, Clone, PartialEq, Eq)]
pub enum TokenKind {
    Fn,
    Let,
    Print,
    Return,
    If,
    Elif,
    Else,
    While,
    For,
    In,
    Break,
    Continue,
    Use,
    From,
    As,
    Async,
    Await,
    Spawn,
    Match,
    Case,
    True,
    False,
    Identifier(String),
    Number(String),
    StringLiteral(String),
    FString(String),
    Colon,
    Newline,
    Indent,
    Dedent,
    LParen,
    RParen,
    Comma,
    Equals,
    Plus,
    Minus,
    Star,
    Slash,
    Percent,
    Dot,
    DoubleDot,
    Arrow,
    Lt,
    Gt,
    LtEq,
    GtEq,
    EqEq,
    Neq,
    Bang,
    Amp,
    Pipe,
    PlusEq,
    MinusEq,
    StarEq,
    SlashEq,
    Eof,
}

impl TokenKind {
    /// The short display name of the tag, used in diagnostics.
    pub open spec fn spec_name(&self) -> Seq<char> {
        match self {
            TokenKind::Fn => "fn"@,
            TokenKind::Let => "let"@,
            TokenKind::Print => "print"@,
            TokenKind::Return => "return"@,
            TokenKind::If => "if"@,
            TokenKind::Elif => "elif"@,
            TokenKind::Else => "else"@,
            TokenKind::While => "while"@,
            TokenKind::For => "for"@,
            TokenKind::In => "in"@,
            TokenKind::Break => "break"@,
            TokenKind::Continue => "continue"@,
            TokenKind::Use => "use"@,
            TokenKind::From => "from"@,
            TokenKind::As => "as"@,
            TokenKind::Async => "async"@,
            TokenKind::Await => "await"@,
            TokenKind::Spawn => "spawn"@,
            TokenKind::Match => "match"@,
            TokenKind::Case => "case"@,
            TokenKind::True => "true"@,
            TokenKind::False => "false"@,
            TokenKind::Identifier(_) => "identifier"@,
            TokenKind::Number(_) => "number"@,
            TokenKind::StringLiteral(_) => "string"@,
            TokenKind::FString(_) => "fstring"@,
            TokenKind::Colon => ":"@,
            TokenKind::Newline => "newline"@,
            TokenKind::Indent => "indent"@,
            TokenKind::Dedent => "dedent"@,
            TokenKind::LParen => "("@,
            TokenKind::RParen => ")"@,
            TokenKind::Comma => ","@,
            TokenKind::Equals => "="@,
            TokenKind::Plus => "+"@,
            TokenKind::Minus => "-"@,
            TokenKind::Star => "*"@,
            TokenKind::Slash => "/"@,
            TokenKind::Percent => "%"@,
            TokenKind::Dot => "."@,
            TokenKind::DoubleDot => ".."@,
            TokenKind::Arrow => "->"@,
            TokenKind::Lt => "<"@,
            TokenKind::Gt => ">"@,
            TokenKind::LtEq => "<="@,
            TokenKind::GtEq => ">="@,
            TokenKind::EqEq => "=="@,
            TokenKind::Neq => "!="@,
            TokenKind::Bang => "!"@,
            TokenKind::Amp => "&"@,
            TokenKind::Pipe => "|"@,
            TokenKind::PlusEq => "+="@,
            TokenKind::MinusEq => "-="@,
            TokenKind::StarEq => "*="@,
            TokenKind::SlashEq => "/="@,
            TokenKind::Eof => "eof"@,
        }
    }

    pub fn name(&self) -> (r: &'static str)
        ensures
            r@ == self.spec_name(),
    {
        match self {
            TokenKind::Fn => "fn",
            TokenKind::Let => "let",
            TokenKind::Print => "print",
            TokenKind::Return => "return",
            TokenKind::If => "if",
            TokenKind::Elif => "elif",
            TokenKind::Else => "else",
            TokenKind::While => "while",
            TokenKind::For => "for",
            TokenKind::In => "in",
            TokenKind::Break => "break",
            TokenKind::Continue => "continue",
            TokenKind::Use => "use",
            TokenKind::From => "from",
            TokenKind::As => "as",
            TokenKind::Async => "async",
            TokenKind::Await => "await",
            TokenKind::Spawn => "spawn",
            TokenKind::Match => "match",
            TokenKind::Case => "case",
            TokenKind::True => "true",
            TokenKind::False => "false",
            TokenKind::Identifier(_) => "identifier",
            TokenKind::Number(_) => "number",
            TokenKind::StringLiteral(_) => "string",
            TokenKind::FString(_) => "fstring",
            TokenKind::Colon => ":",
            TokenKind::Newline => "newline",
            TokenKind::Indent => "indent",
            TokenKind::Dedent => "dedent",
            TokenKind::LParen => "(",
            TokenKind::RParen => ")",
            TokenKind::Comma => ",",
            TokenKind::Equals => "=",
            TokenKind::Plus => "+",
            TokenKind::Minus => "-",
            TokenKind::Star => "*",
            TokenKind::Slash => "/",
            TokenKind::Percent => "%",
            TokenKind::Dot => ".",
            TokenKind::DoubleDot => "..",
            TokenKind::Arrow => "->",
            TokenKind::Lt => "<",
            TokenKind::Gt => ">",
            TokenKind::LtEq => "<=",
            TokenKind::GtEq => ">=",
            TokenKind::EqEq => "==",
            TokenKind::Neq => "!=",
            TokenKind::Bang => "!",
            TokenKind::Amp => "&",
            TokenKind::Pipe => "|",
            TokenKind::PlusEq => "+=",
            TokenKind::MinusEq => "-=",
            TokenKind::StarEq => "*=",
            TokenKind::SlashEq => "/=",
            TokenKind::Eof => "eof",
        }
    }
}

#[derive(Debug, Clone, PartialEq, Eq)]
pub struct Token {
    pub kind: TokenKind,
    pub span: Span,
}

impl Token {
    pub fn new(kind: TokenKind, span: Span) -> (t: Self)
        ensures
            t.kind == kind,
            t.span == span,
    {
        Self { kind, span }
    }
}

} // verus!
