//! Tokens: the lexical units handed from the lexer to the parser.

use vstd::prelude::*;

use crate::text::same_text;

verus! {

/// The kind of a token.
#[derive(Clone, Copy, Debug, PartialEq, Eq, Structural)]
pub enum TokenKind {
    ILLEGAL,
    EOF,
    IDENT,
    INT,
    ASSIGN,
    PLUS,
    MINUS,
    BANG,
    ASTERISK,
    SLASH,
    LT,
    GT,
    EQ,
    NOT_EQ,
    SEMICOLON,
    LPAREN,
    RPAREN,
    LET,
    RETURN,
}

/// A token: its kind and the piece of the source text that it was read from.
#[derive(Clone, Copy, Debug, PartialEq, Eq)]
pub struct Token<'src> {
    pub kind: TokenKind,
    pub literal: &'src str,
}

/// What a token is in contracts: its kind and the characters of its literal.
pub struct TokenModel {
    pub kind: TokenKind,
    pub literal: Seq<char>,
}

impl<'src> View for Token<'src> {
    type V = TokenModel;

    open spec fn view(&self) -> TokenModel {
        TokenModel { kind: self.kind, literal: self.literal@ }
    }
}

/// The name under which a kind appears in diagnostics: the operator or
/// delimiter itself, or an upper-case word for the other kinds.
pub open spec fn kind_name(kind: TokenKind) -> Seq<char> {
    match kind {
        TokenKind::ILLEGAL => "ILLEGAL"@,
        TokenKind::EOF => "EOF"@,
        TokenKind::IDENT => "IDENT"@,
        TokenKind::INT => "INT"@,
        TokenKind::ASSIGN => "="@,
        TokenKind::PLUS => "+"@,
        TokenKind::MINUS => "-"@,
        TokenKind::BANG => "!"@,
        TokenKind::ASTERISK => "*"@,
        TokenKind::SLASH => "/"@,
        TokenKind::LT => "<"@,
        TokenKind::GT => ">"@,
        TokenKind::EQ => "=="@,
        TokenKind::NOT_EQ => "!="@,
        TokenKind::SEMICOLON => ";"@,
        TokenKind::LPAREN => "("@,
        TokenKind::RPAREN => ")"@,
        TokenKind::LET => "LET"@,
        TokenKind::RETURN => "RETURN"@,
    }
}

/// The kind of a word made of letters: a keyword's kind, or `IDENT`.
pub open spec fn word_kind(word: Seq<char>) -> TokenKind {
    if word == "let"@ {
        TokenKind::LET
    } else if word == "return"@ {
        TokenKind::RETURN
    } else {
        TokenKind::IDENT
    }
}

/// The kind of the word `word`: a keyword's kind, or `IDENT`.
pub fn LookupIdent(word: &str) -> (kind: TokenKind)
    ensures
        kind == word_kind(word@),
{
    if same_text(word, "let") {
        TokenKind::LET
    } else if same_text(word, "return") {
        TokenKind::RETURN
    } else {
        TokenKind::IDENT
    }
}

impl TokenKind {
    /// The name of this kind in diagnostics.
    pub fn name(self) -> (text: &'static str)
        ensures
            text@ == kind_name(self),
    {
        match self {
            TokenKind::ILLEGAL => "ILLEGAL",
            TokenKind::EOF => "EOF",
            TokenKind::IDENT => "IDENT",
            TokenKind::INT => "INT",
            TokenKind::ASSIGN => "=",
            TokenKind::PLUS => "+",
            TokenKind::MINUS => "-",
            TokenKind::BANG => "!",
            TokenKind::ASTERISK => "*",
            TokenKind::SLASH => "/",
            TokenKind::LT => "<",
            TokenKind::GT => ">",
            TokenKind::EQ => "==",
            TokenKind::NOT_EQ => "!=",
            TokenKind::SEMICOLON => ";",
            TokenKind::LPAREN => "(",
            TokenKind::RPAREN => ")",
            TokenKind::LET => "LET",
            TokenKind::RETURN => "RETURN",
        }
    }
}

} // verus!
