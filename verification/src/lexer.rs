//! The lexer: a single forward pass over the source text that hands out one
//! token per call and never fails.

use vstd::prelude::*;

use crate::token::{word_kind, LookupIdent, Token, TokenKind, TokenModel};

verus! {

/// The classes of characters of which the lexer reads whole runs.
#[derive(Clone, Copy, Debug, PartialEq, Eq, Structural)]
pub enum CharClass {
    Whitespace,
    Letter,
    Digit,
}

/// Blank, tab, line feed or carriage return.
pub open spec fn is_whitespace(c: char) -> bool {
    c == ' ' || c == '\t' || c == '\n' || c == '\r'
}

/// An ASCII letter or the underscore.
pub open spec fn is_letter(c: char) -> bool {
    ('a' <= c && c <= 'z') || ('A' <= c && c <= 'Z') || c == '_'
}

/// An ASCII decimal digit.
pub open spec fn is_digit(c: char) -> bool {
    '0' <= c && c <= '9'
}

/// Whether `c` belongs to `class`.
pub open spec fn class_has(class: CharClass, c: char) -> bool {
    match class {
        CharClass::Whitespace => is_whitespace(c),
        CharClass::Letter => is_letter(c),
        CharClass::Digit => is_digit(c),
    }
}

/// The number of consecutive characters of `class` in `src` from `pos` on.
pub open spec fn run_length(src: Seq<char>, pos: int, class: CharClass) -> nat
    decreases src.len() - pos,
{
    if 0 <= pos < src.len() && class_has(class, src[pos]) {
        1 + run_length(src, pos + 1, class)
    } else {
        0
    }
}

/// Whether the character after `start` is `=`.
pub open spec fn followed_by_equals(src: Seq<char>, start: int) -> bool {
    start + 1 < src.len() && src[start + 1] == '='
}

/// The kind and the length of the token whose first character is
/// `src[start]`. A character that starts no token is an `ILLEGAL` token of
/// length one.
pub open spec fn token_shape(src: Seq<char>, start: int) -> (TokenKind, nat) {
    let c = src[start];
    if c == '=' {
        if followed_by_equals(src, start) {
            (TokenKind::EQ, 2)
        } else {
            (TokenKind::ASSIGN, 1)
        }
    } else if c == '!' {
        if followed_by_equals(src, start) {
            (TokenKind::NOT_EQ, 2)
        } else {
            (TokenKind::BANG, 1)
        }
    } else if c == '+' {
        (TokenKind::PLUS, 1)
    } else if c == '-' {
        (TokenKind::MINUS, 1)
    } else if c == '*' {
        (TokenKind::ASTERISK, 1)
    } else if c == '/' {
        (TokenKind::SLASH, 1)
    } else if c == '<' {
        (TokenKind::LT, 1)
    } else if c == '>' {
        (TokenKind::GT, 1)
    } else if c == ';' {
        (TokenKind::SEMICOLON, 1)
    } else if c == '(' {
        (TokenKind::LPAREN, 1)
    } else if c == ')' {
        (TokenKind::RPAREN, 1)
    } else if is_letter(c) {
        let n = run_length(src, start, CharClass::Letter);
        (word_kind(src.subrange(start, start + n)), n)
    } else if is_digit(c) {
        (TokenKind::INT, run_length(src, start, CharClass::Digit))
    } else {
        (TokenKind::ILLEGAL, 1)
    }
}

/// A token together with the number of characters that were read for it,
/// the whitespace before it included.
pub struct Lexed {
    pub token: TokenModel,
    pub span: nat,
}

/// The token that a lexer at position `pos` of `src` hands out next.
/// Whitespace is skipped; at the end of the text the token is `EOF` with an
/// empty literal.
#[verifier::opaque]
pub open spec fn next_token(src: Seq<char>, pos: int) -> Lexed {
    let gap = run_length(src, pos, CharClass::Whitespace);
    let start = pos + gap;
    if !(0 <= start < src.len()) {
        Lexed { token: TokenModel { kind: TokenKind::EOF, literal: Seq::empty() }, span: gap }
    } else {
        let (kind, len) = token_shape(src, start);
        Lexed {
            token: TokenModel { kind, literal: src.subrange(start, start + len) },
            span: gap + len,
        }
    }
}

/// A run never leaves the text.
pub proof fn lemma_run_in_bounds(src: Seq<char>, pos: int, class: CharClass)
    requires
        0 <= pos <= src.len(),
    ensures
        pos + run_length(src, pos, class) <= src.len(),
    decreases src.len() - pos,
{
    if pos < src.len() && class_has(class, src[pos]) {
        lemma_run_in_bounds(src, pos + 1, class);
    }
}

/// Every character of a run belongs to the class, and the run is maximal:
/// the character after it, if there is one, does not.
pub proof fn lemma_run_is_maximal(src: Seq<char>, pos: int, class: CharClass)
    requires
        0 <= pos <= src.len(),
    ensures
        forall|i: int|
            pos <= i < pos + run_length(src, pos, class) ==> class_has(class, #[trigger] src[i]),
        pos + run_length(src, pos, class) < src.len() ==> !class_has(
            class,
            src[pos + run_length(src, pos, class)],
        ),
    decreases src.len() - pos,
{
    if pos < src.len() && class_has(class, src[pos]) {
        lemma_run_in_bounds(src, pos + 1, class);
        lemma_run_is_maximal(src, pos + 1, class);
    }
}

/// Where every character from `pos` on belongs to the class, the run goes
/// to the end of the text.
pub proof fn lemma_run_to_the_end(src: Seq<char>, pos: int, class: CharClass)
    requires
        0 <= pos <= src.len(),
        forall|i: int| pos <= i < src.len() ==> class_has(class, #[trigger] src[i]),
    ensures
        pos + run_length(src, pos, class) == src.len(),
    decreases src.len() - pos,
{
    if pos < src.len() {
        lemma_run_to_the_end(src, pos + 1, class);
    }
}

/// Every token but `EOF` is read from within the text and holds at least
/// one character.
pub proof fn lemma_token_advances(src: Seq<char>, pos: int)
    ensures
        next_token(src, pos).token.kind != TokenKind::EOF ==> pos < src.len() && next_token(
            src,
            pos,
        ).span > 0,
{
    reveal(next_token);
    reveal_strlit("let");
    reveal_strlit("return");
}

/// A token never reaches past the end of the text; every token but `EOF`
/// holds at least one character, and `EOF` is handed out only when nothing
/// but whitespace is left.
pub proof fn lemma_token_in_bounds(src: Seq<char>, pos: int)
    requires
        0 <= pos <= src.len(),
    ensures
        pos + next_token(src, pos).span <= src.len(),
        next_token(src, pos).token.kind != TokenKind::EOF ==> next_token(src, pos).span > 0
            && next_token(src, pos).token.literal.len() > 0,
        next_token(src, pos).token.kind == TokenKind::EOF ==> pos + next_token(src, pos).span
            == src.len() && next_token(src, pos).token.literal.len() == 0,
{
    reveal(next_token);
    let gap = run_length(src, pos, CharClass::Whitespace);
    lemma_run_in_bounds(src, pos, CharClass::Whitespace);
    let start = pos + gap;
    if start < src.len() {
        lemma_run_in_bounds(src, start, CharClass::Letter);
        lemma_run_in_bounds(src, start, CharClass::Digit);
        reveal_strlit("let");
        reveal_strlit("return");
    }
}

impl CharClass {
    /// Whether `c` belongs to this class.
    pub fn has(self, c: char) -> (found: bool)
        ensures
            found == class_has(self, c),
    {
        match self {
            CharClass::Whitespace => c == ' ' || c == '\t' || c == '\n' || c == '\r',
            CharClass::Letter => ('a' <= c && c <= 'z') || ('A' <= c && c <= 'Z') || c == '_',
            CharClass::Digit => '0' <= c && c <= '9',
        }
    }
}

/// A lexer over one source text. Its tokens borrow their literals from that
/// text.
#[derive(Debug)]
pub struct Lexer<'src> {
    input: &'src str,
    chars: Vec<char>,
    position: usize,
}

impl<'src> Lexer<'src> {
    /// The source text.
    pub closed spec fn source(&self) -> Seq<char> {
        self.input@
    }

    /// How many characters of the source have been read.
    pub closed spec fn cursor(&self) -> int {
        self.position as int
    }

    /// The lexer's invariant: the cursor lies within the text.
    pub closed spec fn well_formed(&self) -> bool {
        &&& self.chars@ == self.input@
        &&& self.position <= self.chars.len()
    }

    /// Within a well-formed lexer the cursor lies within the text.
    pub proof fn lemma_cursor_in_bounds(&self)
        requires
            self.well_formed(),
        ensures
            0 <= self.cursor() <= self.source().len(),
    {
    }

    /// A lexer at the start of `input`.
    pub fn New(input: &'src str) -> (lexer: Self)
        ensures
            lexer.well_formed(),
            lexer.source() == input@,
            lexer.cursor() == 0,
    {
        let mut chars: Vec<char> = Vec::new();
        for c in it: input.chars()
            invariant
                chars@ == it.seq().take(it.index() as int),
        {
            chars.push(c);
        }
        assert(chars@ =~= input@);
        Lexer { input, chars, position: 0 }
    }

    /// The end of the run of `class` that starts at `from`.
    fn run_end(&self, from: usize, class: CharClass) -> (end: usize)
        requires
            self.well_formed(),
            from <= self.chars.len(),
        ensures
            end == from + run_length(self.source(), from as int, class),
            end <= self.chars.len(),
    {
        let mut end = from;
        while end < self.chars.len() && class.has(self.chars[end])
            invariant
                self.well_formed(),
                from <= end <= self.chars.len(),
                from + run_length(self.source(), from as int, class) == end + run_length(
                    self.source(),
                    end as int,
                    class,
                ),
            decreases self.chars.len() - end,
        {
            end += 1;
        }
        end
    }

    /// Whether the character after `start` is `=`.
    fn peek_equals(&self, start: usize) -> (found: bool)
        requires
            self.well_formed(),
            start < self.chars.len(),
        ensures
            found == followed_by_equals(self.source(), start as int),
    {
        start + 1 < self.chars.len() && self.chars[start + 1] == '='
    }

    /// The kind of the token that starts at `start`, and where it ends.
    fn shape_at(&self, start: usize) -> (shape: (TokenKind, usize))
        requires
            self.well_formed(),
            start < self.chars.len(),
        ensures
            shape.0 == if is_letter(self.source()[start as int]) {
                TokenKind::IDENT
            } else {
                token_shape(self.source(), start as int).0
            },
            shape.1 == start + token_shape(self.source(), start as int).1,
            start < shape.1 <= self.chars.len(),
    {
        let c = self.chars[start];
        if c == '=' {
            if self.peek_equals(start) {
                (TokenKind::EQ, start + 2)
            } else {
                (TokenKind::ASSIGN, start + 1)
            }
        } else if c == '!' {
            if self.peek_equals(start) {
                (TokenKind::NOT_EQ, start + 2)
            } else {
                (TokenKind::BANG, start + 1)
            }
        } else if c == '+' {
            (TokenKind::PLUS, start + 1)
        } else if c == '-' {
            (TokenKind::MINUS, start + 1)
        } else if c == '*' {
            (TokenKind::ASTERISK, start + 1)
        } else if c == '/' {
            (TokenKind::SLASH, start + 1)
        } else if c == '<' {
            (TokenKind::LT, start + 1)
        } else if c == '>' {
            (TokenKind::GT, start + 1)
        } else if c == ';' {
            (TokenKind::SEMICOLON, start + 1)
        } else if c == '(' {
            (TokenKind::LPAREN, start + 1)
        } else if c == ')' {
            (TokenKind::RPAREN, start + 1)
        } else if CharClass::Letter.has(c) {
            (TokenKind::IDENT, self.run_end(start, CharClass::Letter))
        } else if CharClass::Digit.has(c) {
            (TokenKind::INT, self.run_end(start, CharClass::Digit))
        } else {
            (TokenKind::ILLEGAL, start + 1)
        }
    }

    /// Hands out the next token and moves the cursor past it. At the end of
    /// the text every call hands out `EOF`.
    pub fn NextToken(&mut self) -> (token: Token<'src>)
        requires
            old(self).well_formed(),
        ensures
            final(self).well_formed(),
            final(self).source() == old(self).source(),
            token@ == next_token(old(self).source(), old(self).cursor()).token,
            final(self).cursor() == old(self).cursor() + next_token(
                old(self).source(),
                old(self).cursor(),
            ).span,
    {
        proof {
            reveal(next_token);
        }
        let start = self.run_end(self.position, CharClass::Whitespace);
        if start >= self.chars.len() {
            self.position = start;
            proof {
                reveal_strlit("");
                assert(""@ =~= Seq::<char>::empty());
            }
            return Token { kind: TokenKind::EOF, literal: "" };
        }
        let (kind, end) = self.shape_at(start);
        let literal = self.input.substring_char(start, end);
        self.position = end;
        match kind {
            TokenKind::IDENT => Token { kind: LookupIdent(literal), literal },
            _ => Token { kind, literal },
        }
    }
}

} // verus!
