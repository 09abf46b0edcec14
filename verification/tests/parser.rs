#![allow(non_snake_case)]

use monkey::ast::{ExpressionEnum, Node, NodeEnum, Program, StatementEnum};
use monkey::lexer::Lexer;
use monkey::parser::{precedence, Parser, EQUALS, LESSGREATER, LOWEST, PREFIX, PRODUCT, SUM};
use monkey::token::TokenKind;

fn parse(input: &str) -> (Program<'_>, Vec<String>) {
    let mut parser = Parser::New(Lexer::New(input));
    let program = parser.ParseProgram();
    let errors = parser.Errors().clone();
    (program, errors)
}

fn rendered(input: &str) -> String {
    let (program, errors) = parse(input);
    assert_eq!(errors, Vec::<String>::new(), "{}", input);
    program.String()
}

#[test]
fn let_statement_round_trip() {
    let (program, errors) = parse("let myVar = anotherVar;");
    assert!(errors.is_empty());
    assert_eq!(program.statements.len(), 1);
    assert_eq!(program.statements[0].String(), "let myVar = anotherVar;");
    assert_eq!(program.statements[0].TokenLiteral(), "let");
    match &program.statements[0] {
        StatementEnum::Let(statement) => {
            assert_eq!(statement.name.value, "myVar");
            assert_eq!(statement.name.TokenLiteral(), "myVar");
            assert_eq!(statement.value.String(), "anotherVar");
        }
        other => panic!("not a let statement: {:?}", other),
    }
}

#[test]
fn precedence_rendering() {
    let (program, errors) = parse("1 + 2 * 3");
    assert!(errors.is_empty());
    assert_eq!(program.statements.len(), 1);
    match &program.statements[0] {
        StatementEnum::Expression(statement) => {
            let expression = statement.expression.as_ref().unwrap();
            assert_eq!(expression.String(), "(1 + (2 * 3))");
        }
        other => panic!("not an expression statement: {:?}", other),
    }
}

#[test]
fn prefix_rendering() {
    let (program, errors) = parse("-5");
    assert!(errors.is_empty());
    assert_eq!(program.statements.len(), 1);
    match &program.statements[0] {
        StatementEnum::Expression(statement) => {
            let expression = statement.expression.as_ref().unwrap();
            assert_eq!(expression.String(), "(-5)");
            match expression {
                ExpressionEnum::PrefixExpression(prefix) => {
                    assert_eq!(prefix.operator, "-");
                    assert_eq!(prefix.TokenLiteral(), "-");
                    assert_eq!(prefix.right.String(), "5");
                }
                other => panic!("not a prefix expression: {:?}", other),
            }
        }
        other => panic!("not an expression statement: {:?}", other),
    }
}

#[test]
fn empty_input() {
    let (program, errors) = parse("");
    assert!(errors.is_empty());
    assert!(program.statements.is_empty());
    assert_eq!(program.String(), "");
    assert_eq!(program.TokenLiteral(), "");
}

#[test]
fn parser_resilience() {
    let (program, errors) = parse("let x 5;");
    assert_eq!(
        errors,
        vec!["expected next token to be `=`, got `INT` instead".to_string()]
    );
    assert_eq!(program.String(), "5");

    let (program, errors) = parse("let x = 5;");
    assert!(errors.is_empty());
    assert_eq!(program.String(), "let x = 5;");
}

#[test]
fn parsing_goes_on_after_a_diagnostic() {
    let (program, errors) = parse("let = 1; let y = 2; let 3; return y;");
    assert_eq!(
        errors,
        vec![
            "expected next token to be `IDENT`, got `=` instead".to_string(),
            "no prefix parse function for `=` found".to_string(),
            "expected next token to be `IDENT`, got `INT` instead".to_string(),
        ]
    );
    assert_eq!(program.String(), "1let y = 2;3return y;");
    assert_eq!(program.statements.len(), 5);
}

#[test]
fn operator_precedence() {
    let cases = vec![
        ("-a * b", "((-a) * b)"),
        ("!-a", "(!(-a))"),
        ("a + b + c", "((a + b) + c)"),
        ("a + b - c", "((a + b) - c)"),
        ("a * b * c", "((a * b) * c)"),
        ("a * b / c", "((a * b) / c)"),
        ("a + b / c", "(a + (b / c))"),
        ("a + b * c + d / e - f", "(((a + (b * c)) + (d / e)) - f)"),
        ("3 + 4; -5 * 5", "(3 + 4)((-5) * 5)"),
        ("5 > 4 == 3 < 4", "((5 > 4) == (3 < 4))"),
        ("5 < 4 != 3 > 4", "((5 < 4) != (3 > 4))"),
        ("a == b == c", "((a == b) == c)"),
        ("a < b < c", "((a < b) < c)"),
        (
            "3 + 4 * 5 == 3 * 1 + 4 * 5",
            "((3 + (4 * 5)) == ((3 * 1) + (4 * 5)))",
        ),
        ("1 + (2 + 3) + 4", "((1 + (2 + 3)) + 4)"),
        ("(5 + 5) * 2", "((5 + 5) * 2)"),
        ("2 / (5 + 5)", "(2 / (5 + 5))"),
        ("-(5 + 5)", "(-(5 + 5))"),
        ("!(a == a)", "(!(a == a))"),
        ("((a))", "a"),
        ("- - a", "(-(-a))"),
    ];
    for (input, expected) in cases {
        assert_eq!(rendered(input), expected, "{}", input);
    }
}

#[test]
fn binding_powers() {
    assert_eq!(precedence(TokenKind::EQ), EQUALS);
    assert_eq!(precedence(TokenKind::NOT_EQ), EQUALS);
    assert_eq!(precedence(TokenKind::LT), LESSGREATER);
    assert_eq!(precedence(TokenKind::GT), LESSGREATER);
    assert_eq!(precedence(TokenKind::PLUS), SUM);
    assert_eq!(precedence(TokenKind::MINUS), SUM);
    assert_eq!(precedence(TokenKind::ASTERISK), PRODUCT);
    assert_eq!(precedence(TokenKind::SLASH), PRODUCT);
    assert_eq!(precedence(TokenKind::LPAREN), LOWEST);
    assert_eq!(precedence(TokenKind::SEMICOLON), LOWEST);
    assert_eq!(precedence(TokenKind::EOF), LOWEST);
    assert!(LOWEST < EQUALS);
    assert!(EQUALS < LESSGREATER);
    assert!(LESSGREATER < SUM);
    assert!(SUM < PRODUCT);
    assert!(PRODUCT < PREFIX);
}

#[test]
fn statements_are_rendered_in_canonical_form() {
    let cases = vec![
        ("let   x=1+2 ;", "let x = (1 + 2);"),
        ("return  -a*b;", "return ((-a) * b);"),
        ("a;b;;c", "abc"),
        ("let x = 1; return x; x", "let x = 1;return x;x"),
    ];
    for (input, expected) in cases {
        let (program, _) = parse(input);
        assert_eq!(program.String(), expected, "{}", input);
    }
}

#[test]
fn let_and_return_must_end_in_a_semicolon() {
    let (program, errors) = parse("let x = 5");
    assert_eq!(
        errors,
        vec!["expected next token to be `;`, got `EOF` instead".to_string()]
    );
    assert!(program.statements.is_empty());

    let (program, errors) = parse("return 5 x");
    assert_eq!(
        errors,
        vec!["expected next token to be `;`, got `IDENT` instead".to_string()]
    );
    assert_eq!(program.String(), "x");
}

#[test]
fn diagnostics() {
    let cases = vec![
        ("let x;", vec![
            "expected next token to be `=`, got `;` instead",
            "no prefix parse function for `;` found",
        ]),
        ("let 5 = 5;", vec![
            "expected next token to be `IDENT`, got `INT` instead",
            "no prefix parse function for `=` found",
        ]),
        ("let x = ;", vec!["no prefix parse function for `;` found"]),
        ("return ;", vec!["no prefix parse function for `;` found"]),
        ("(1 + 2", vec!["expected next token to be `)`, got `EOF` instead"]),
        ("1 + ", vec!["no prefix parse function for `EOF` found"]),
        ("*", vec!["no prefix parse function for `*` found"]),
        (")", vec!["no prefix parse function for `)` found"]),
        ("@", vec!["no prefix parse function for `ILLEGAL` found"]),
        ("return", vec!["no prefix parse function for `EOF` found"]),
        ("let", vec!["expected next token to be `IDENT`, got `EOF` instead"]),
        (
            "9223372036854775808",
            vec!["could not parse `9223372036854775808` as integer"],
        ),
        (
            "1 + 99999999999999999999 + 2",
            vec![
                "could not parse `99999999999999999999` as integer",
                "no prefix parse function for `+` found",
            ],
        ),
    ];
    for (input, expected) in cases {
        let (_, errors) = parse(input);
        let expected: Vec<String> = expected.iter().map(|e| e.to_string()).collect();
        assert_eq!(errors, expected, "{}", input);
    }
}

#[test]
fn a_statement_without_an_expression_stays_and_prints_as_nothing() {
    let (program, errors) = parse("+");
    assert_eq!(errors.len(), 1);
    assert_eq!(program.statements.len(), 1);
    match &program.statements[0] {
        StatementEnum::Expression(statement) => {
            assert!(statement.expression.is_none());
            assert_eq!(statement.TokenLiteral(), "+");
            assert_eq!(statement.String(), "");
        }
        other => panic!("not an expression statement: {:?}", other),
    }
    assert_eq!(program.String(), "");
    assert_eq!(program.TokenLiteral(), "+");
}

#[test]
fn a_second_run_of_the_same_parser_finds_nothing_more() {
    let mut parser = Parser::New(Lexer::New("1; let x 2;"));
    let first = parser.ParseProgram();
    assert_eq!(first.String(), "12");
    assert_eq!(parser.Errors().len(), 1);
    let second = parser.ParseProgram();
    assert!(second.statements.is_empty());
    assert_eq!(parser.Errors().len(), 1);
}

#[test]
fn a_parser_can_start_in_the_middle_of_a_text() {
    let mut lexer = Lexer::New("let x = 1 + 2;");
    lexer.NextToken();
    lexer.NextToken();
    lexer.NextToken();
    let mut parser = Parser::New(lexer);
    let program = parser.ParseProgram();
    assert!(parser.Errors().is_empty());
    assert_eq!(program.String(), "(1 + 2)");
}

#[test]
fn nodes_of_every_kind_print_and_name_their_token() {
    let (mut program, errors) = parse("return a + 1;");
    assert!(errors.is_empty());
    let node: NodeEnum = program.statements.remove(0).into();
    assert_eq!(node.String(), "return (a + 1);");
    assert_eq!(node.TokenLiteral(), "return");

    let (mut program, _) = parse("a + 1");
    let expression = match program.statements.remove(0) {
        StatementEnum::Expression(statement) => statement.expression.unwrap(),
        other => panic!("not an expression statement: {:?}", other),
    };
    let node: NodeEnum = expression.into();
    assert_eq!(node.String(), "(a + 1)");
    assert_eq!(node.TokenLiteral(), "+");

    let (program, _) = parse("x; y");
    let node: NodeEnum = program.into();
    assert_eq!(node.String(), "xy");
    assert_eq!(node.TokenLiteral(), "x");
}
