#![allow(non_snake_case)]

use monkey::lexer::{CharClass, Lexer};
use monkey::token::{LookupIdent, Token, TokenKind};

fn tokens(input: &str) -> Vec<(TokenKind, String)> {
    let mut lexer = Lexer::New(input);
    let mut out = Vec::new();
    loop {
        let token = lexer.NextToken();
        out.push((token.kind, token.literal.to_string()));
        if token.kind == TokenKind::EOF {
            return out;
        }
    }
}

fn pairs(expected: &[(TokenKind, &str)]) -> Vec<(TokenKind, String)> {
    expected
        .iter()
        .map(|(kind, literal)| (*kind, literal.to_string()))
        .collect()
}

#[test]
fn empty_input_is_end_of_input() {
    assert_eq!(tokens(""), pairs(&[(TokenKind::EOF, "")]));
    assert_eq!(tokens(" \t\r\n"), pairs(&[(TokenKind::EOF, "")]));
}

#[test]
fn end_of_input_is_handed_out_again_and_again() {
    let mut lexer = Lexer::New("x");
    assert_eq!(
        lexer.NextToken(),
        Token {
            kind: TokenKind::IDENT,
            literal: "x"
        }
    );
    for _ in 0..3 {
        assert_eq!(
            lexer.NextToken(),
            Token {
                kind: TokenKind::EOF,
                literal: ""
            }
        );
    }
}

#[test]
fn operators_and_delimiters() {
    assert_eq!(
        tokens("=+-!*/<>;()"),
        pairs(&[
            (TokenKind::ASSIGN, "="),
            (TokenKind::PLUS, "+"),
            (TokenKind::MINUS, "-"),
            (TokenKind::BANG, "!"),
            (TokenKind::ASTERISK, "*"),
            (TokenKind::SLASH, "/"),
            (TokenKind::LT, "<"),
            (TokenKind::GT, ">"),
            (TokenKind::SEMICOLON, ";"),
            (TokenKind::LPAREN, "("),
            (TokenKind::RPAREN, ")"),
            (TokenKind::EOF, ""),
        ])
    );
}

#[test]
fn two_character_operators() {
    assert_eq!(
        tokens("== != = ! === !== =!"),
        pairs(&[
            (TokenKind::EQ, "=="),
            (TokenKind::NOT_EQ, "!="),
            (TokenKind::ASSIGN, "="),
            (TokenKind::BANG, "!"),
            (TokenKind::EQ, "=="),
            (TokenKind::ASSIGN, "="),
            (TokenKind::NOT_EQ, "!="),
            (TokenKind::ASSIGN, "="),
            (TokenKind::ASSIGN, "="),
            (TokenKind::BANG, "!"),
            (TokenKind::EOF, ""),
        ])
    );
}

#[test]
fn a_small_program() {
    assert_eq!(
        tokens("let five = 5;\nlet ten_x = 10;\nreturn five + ten_x;"),
        pairs(&[
            (TokenKind::LET, "let"),
            (TokenKind::IDENT, "five"),
            (TokenKind::ASSIGN, "="),
            (TokenKind::INT, "5"),
            (TokenKind::SEMICOLON, ";"),
            (TokenKind::LET, "let"),
            (TokenKind::IDENT, "ten_x"),
            (TokenKind::ASSIGN, "="),
            (TokenKind::INT, "10"),
            (TokenKind::SEMICOLON, ";"),
            (TokenKind::RETURN, "return"),
            (TokenKind::IDENT, "five"),
            (TokenKind::PLUS, "+"),
            (TokenKind::IDENT, "ten_x"),
            (TokenKind::SEMICOLON, ";"),
            (TokenKind::EOF, ""),
        ])
    );
}

#[test]
fn words_and_numbers_end_where_their_run_ends() {
    assert_eq!(
        tokens("abc123 12ab letx returns _"),
        pairs(&[
            (TokenKind::IDENT, "abc"),
            (TokenKind::INT, "123"),
            (TokenKind::INT, "12"),
            (TokenKind::IDENT, "ab"),
            (TokenKind::IDENT, "letx"),
            (TokenKind::IDENT, "returns"),
            (TokenKind::IDENT, "_"),
            (TokenKind::EOF, ""),
        ])
    );
}

#[test]
fn unknown_characters_are_illegal_tokens() {
    assert_eq!(
        tokens("a @ {b} é, 1"),
        pairs(&[
            (TokenKind::IDENT, "a"),
            (TokenKind::ILLEGAL, "@"),
            (TokenKind::ILLEGAL, "{"),
            (TokenKind::IDENT, "b"),
            (TokenKind::ILLEGAL, "}"),
            (TokenKind::ILLEGAL, "é"),
            (TokenKind::ILLEGAL, ","),
            (TokenKind::INT, "1"),
            (TokenKind::EOF, ""),
        ])
    );
}

#[test]
fn keywords_are_told_from_identifiers() {
    assert_eq!(LookupIdent("let"), TokenKind::LET);
    assert_eq!(LookupIdent("return"), TokenKind::RETURN);
    assert_eq!(LookupIdent("Let"), TokenKind::IDENT);
    assert_eq!(LookupIdent("le"), TokenKind::IDENT);
    assert_eq!(LookupIdent("lets"), TokenKind::IDENT);
    assert_eq!(LookupIdent(""), TokenKind::IDENT);
}

#[test]
fn kind_names() {
    assert_eq!(TokenKind::ASSIGN.name(), "=");
    assert_eq!(TokenKind::INT.name(), "INT");
    assert_eq!(TokenKind::NOT_EQ.name(), "!=");
    assert_eq!(TokenKind::EOF.name(), "EOF");
    assert_eq!(TokenKind::LET.name(), "LET");
}

#[test]
fn character_classes() {
    assert!(CharClass::Whitespace.has(' '));
    assert!(CharClass::Whitespace.has('\n'));
    assert!(!CharClass::Whitespace.has('a'));
    assert!(CharClass::Letter.has('a'));
    assert!(CharClass::Letter.has('Z'));
    assert!(CharClass::Letter.has('_'));
    assert!(!CharClass::Letter.has('1'));
    assert!(!CharClass::Letter.has('é'));
    assert!(CharClass::Digit.has('0'));
    assert!(CharClass::Digit.has('9'));
    assert!(!CharClass::Digit.has('a'));
}

#[test]
fn tokens_hold_exactly_the_characters_of_the_text() {
    let alphabet = ['a', 'l', '1', '=', '!', '+', '(', ' ', ';', '@', 'é', '\n'];
    let mut texts: Vec<String> = vec![String::new()];
    let mut start = 0;
    for _ in 0..4 {
        let end = texts.len();
        for i in start..end {
            for c in alphabet {
                let mut longer = texts[i].clone();
                longer.push(c);
                texts.push(longer);
            }
        }
        start = end;
    }
    for text in &texts {
        let mut lexer = Lexer::New(text);
        let mut read = String::new();
        loop {
            let token = lexer.NextToken();
            read.push_str(token.literal);
            if token.kind == TokenKind::EOF {
                assert_eq!(token.literal, "");
                break;
            }
            assert!(!token.literal.is_empty());
        }
        let kept: String = text.chars().filter(|c| !CharClass::Whitespace.has(*c)).collect();
        assert_eq!(read, kept, "{:?}", text);
    }
}
