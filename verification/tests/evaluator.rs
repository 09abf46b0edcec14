#![allow(non_snake_case)]

use monkey::ast::{NodeEnum, Node};
use monkey::environment::Environment;
use monkey::evaluator::{
    evalInfixExpression, evalPrefixExpression, testEval, testIntegerObject, Eval, EvalIn,
};
use monkey::lexer::Lexer;
use monkey::object::{Boolean, Error, Integer, ObjectEnum};
use monkey::parser::Parser;

fn integer(value: i64) -> ObjectEnum {
    ObjectEnum::Integer(Integer { value })
}

fn boolean(value: bool) -> ObjectEnum {
    ObjectEnum::Boolean(Boolean { value })
}

fn error(message: &str) -> ObjectEnum {
    ObjectEnum::Error(Error {
        message: message.to_string(),
    })
}

#[test]
fn EvalIntegerExpression() {
    let tests = vec![("5", 5), ("10", 10)];
    for (input, expected) in tests {
        let evaluated = testEval(input);
        assert!(testIntegerObject(evaluated.unwrap(), expected));
    }
}

#[test]
fn integer_object_check_tells_values_and_kinds_apart() {
    assert!(testIntegerObject(integer(5), 5));
    assert!(!testIntegerObject(integer(5), 6));
    assert!(!testIntegerObject(boolean(true), 1));
    assert!(!testIntegerObject(error("5"), 5));
}

#[test]
fn integer_literals_evaluate_to_their_value() {
    let cases: Vec<(&str, i64)> = vec![
        ("0", 0),
        ("7", 7),
        ("007", 7),
        ("1234567890", 1234567890),
        ("9223372036854775807", i64::MAX),
    ];
    for (input, expected) in cases {
        assert_eq!(testEval(input), Some(integer(expected)), "{}", input);
    }
}

#[test]
fn integer_arithmetic() {
    let cases: Vec<(&str, i64)> = vec![
        ("-5", -5),
        ("--5", 5),
        ("5 + 5 + 5 + 5 - 10", 10),
        ("2 * 2 * 2 * 2 * 2", 32),
        ("-50 + 100 + -50", 0),
        ("5 * 2 + 10", 20),
        ("5 + 2 * 10", 25),
        ("20 + 2 * -10", 0),
        ("50 / 2 * 2 + 10", 60),
        ("2 * (5 + 10)", 30),
        ("3 * 3 * 3 + 10", 37),
        ("3 * (3 * 3) + 10", 37),
        ("(5 + 10 * 2 + 15 / 3) * 2 + -10", 50),
        ("7 / 2", 3),
        ("-7 / 2", -3),
        ("7 / -2", -3),
        ("-7 / -2", 3),
        ("0 / -3", 0),
        ("9223372036854775807 + 0", i64::MAX),
        ("-9223372036854775807 - 1", i64::MIN),
        ("(-9223372036854775807 - 1) / 1", i64::MIN),
    ];
    for (input, expected) in cases {
        assert_eq!(testEval(input), Some(integer(expected)), "{}", input);
    }
}

#[test]
fn boolean_results() {
    let cases: Vec<(&str, bool)> = vec![
        ("1 < 2", true),
        ("1 > 2", false),
        ("1 < 1", false),
        ("1 > 1", false),
        ("1 == 1", true),
        ("1 != 1", false),
        ("1 == 2", false),
        ("1 != 2", true),
        ("(1 < 2) == (2 > 1)", true),
        ("(1 < 2) != (2 > 1)", false),
        ("(1 < 2) == (1 > 2)", false),
        ("1 + 1 == 2", true),
        ("1 < 2 == 2 < 3", true),
        ("!(1 < 2)", false),
        ("!(1 > 2)", true),
        ("!!(1 < 2)", true),
        ("!5", false),
        ("!!5", true),
        ("!0", false),
    ];
    for (input, expected) in cases {
        assert_eq!(testEval(input), Some(boolean(expected)), "{}", input);
    }
}

#[test]
fn runtime_errors_are_values() {
    let cases: Vec<(&str, &str)> = vec![
        ("5 + (1 < 2)", "type mismatch: INTEGER + BOOLEAN"),
        ("(1 < 2) == 1", "type mismatch: BOOLEAN == INTEGER"),
        ("5 + (1 < 2); 5;", "type mismatch: INTEGER + BOOLEAN"),
        ("-(1 < 2)", "unknown operator: -BOOLEAN"),
        ("(1 < 2) + (1 > 2)", "unknown operator: BOOLEAN + BOOLEAN"),
        ("(1 < 2) < (1 > 2)", "unknown operator: BOOLEAN < BOOLEAN"),
        ("5; (1 < 2) + (1 > 2); 5", "unknown operator: BOOLEAN + BOOLEAN"),
        ("foobar", "identifier not found: foobar"),
        ("let a = b; 7", "identifier not found: b"),
        ("return x + 1; 7", "identifier not found: x"),
        ("1 / 0", "division by zero"),
        ("1 / (5 - 5)", "division by zero"),
        ("9223372036854775807 + 1", "integer overflow"),
        ("-9223372036854775807 - 2", "integer overflow"),
        ("9223372036854775807 * 2", "integer overflow"),
        ("(-9223372036854775807 - 1) / -1", "integer overflow"),
        ("-(-9223372036854775807 - 1)", "integer overflow"),
        ("!(1 / 0)", "division by zero"),
        ("(1 / 0) + nothing", "division by zero"),
        ("1 + (2 / 0) + nothing", "division by zero"),
    ];
    for (input, expected) in cases {
        assert_eq!(testEval(input), Some(error(expected)), "{}", input);
    }
}

#[test]
fn let_statements_bind_names() {
    let cases: Vec<(&str, i64)> = vec![
        ("let a = 5; a;", 5),
        ("let a = 5 * 5; a;", 25),
        ("let a = 5; let b = a; b;", 5),
        ("let a = 5; let b = a; let c = a + b + 5; c;", 15),
        ("let a = 5; let a = a + 1; a", 6),
    ];
    for (input, expected) in cases {
        assert_eq!(testEval(input), Some(integer(expected)), "{}", input);
    }
}

#[test]
fn return_statements_end_the_program() {
    let cases: Vec<(&str, i64)> = vec![
        ("return 10;", 10),
        ("return 10; 9;", 10),
        ("return 2 * 5; 9;", 10),
        ("9; return 2 * 5; 9;", 10),
        ("let a = 4; return a + 1; let a = 9; a;", 5),
    ];
    for (input, expected) in cases {
        assert_eq!(testEval(input), Some(integer(expected)), "{}", input);
    }
}

#[test]
fn programs_without_a_value() {
    assert_eq!(testEval(""), None);
    assert_eq!(testEval("   \n\t "), None);
    assert_eq!(testEval("let a = 5;"), None);
    assert_eq!(testEval("5; let a = 5;"), None);
}

#[test]
fn a_return_statement_alone_keeps_its_value_wrapped() {
    let mut parser = Parser::New(Lexer::New("return 3;"));
    let mut program = parser.ParseProgram();
    assert!(parser.Errors().is_empty());
    let statement = program.statements.remove(0);
    let value = Eval(NodeEnum::Statement(statement)).unwrap();
    assert_eq!(value.Inspect(), "3");
    assert_eq!(value.Type(), "RETURN_VALUE");
    assert!(!testIntegerObject(value, 3));
}

#[test]
fn an_expression_node_evaluates_to_its_value() {
    let mut parser = Parser::New(Lexer::New("x * 2"));
    let program = parser.ParseProgram();
    assert_eq!(program.String(), "(x * 2)");
    let mut env = Environment::New();
    env.Bind("x", integer(21));
    let node: NodeEnum = program.into();
    assert_eq!(EvalIn(&node, &mut env), Some(integer(42)));
    assert_eq!(Eval(node), Some(error("identifier not found: x")));
}

#[test]
fn bindings_outlive_one_evaluation() {
    let mut env = Environment::New();
    let mut first = Parser::New(Lexer::New("let total = 40;"));
    let node: NodeEnum = first.ParseProgram().into();
    assert_eq!(EvalIn(&node, &mut env), None);
    let mut second = Parser::New(Lexer::New("total + 2"));
    let node: NodeEnum = second.ParseProgram().into();
    assert_eq!(EvalIn(&node, &mut env), Some(integer(42)));
    assert_eq!(env.Lookup("total"), Some(integer(40)));
}

#[test]
fn a_failed_let_binds_nothing() {
    let mut env = Environment::New();
    let mut parser = Parser::New(Lexer::New("let a = 1 / 0; 5"));
    let node: NodeEnum = parser.ParseProgram().into();
    assert_eq!(EvalIn(&node, &mut env), Some(error("division by zero")));
    assert_eq!(env.Lookup("a"), None);
}

#[test]
fn prefix_operators_on_values() {
    assert_eq!(evalPrefixExpression("!", boolean(true)), boolean(false));
    assert_eq!(evalPrefixExpression("!", boolean(false)), boolean(true));
    assert_eq!(evalPrefixExpression("!", integer(0)), boolean(false));
    assert_eq!(evalPrefixExpression("-", integer(5)), integer(-5));
    assert_eq!(evalPrefixExpression("-", integer(i64::MAX)), integer(-i64::MAX));
    assert_eq!(
        evalPrefixExpression("-", integer(i64::MIN)),
        error("integer overflow")
    );
    assert_eq!(
        evalPrefixExpression("-", boolean(true)),
        error("unknown operator: -BOOLEAN")
    );
    assert_eq!(
        evalPrefixExpression("~", integer(1)),
        error("unknown operator: ~INTEGER")
    );
}

#[test]
fn infix_operators_on_values() {
    assert_eq!(evalInfixExpression("+", integer(2), integer(3)), integer(5));
    assert_eq!(evalInfixExpression("-", integer(2), integer(3)), integer(-1));
    assert_eq!(evalInfixExpression("*", integer(2), integer(3)), integer(6));
    assert_eq!(evalInfixExpression("/", integer(6), integer(3)), integer(2));
    assert_eq!(
        evalInfixExpression("%", integer(6), integer(3)),
        error("unknown operator: INTEGER % INTEGER")
    );
    assert_eq!(
        evalInfixExpression("==", boolean(true), boolean(true)),
        boolean(true)
    );
    assert_eq!(
        evalInfixExpression("!=", boolean(true), boolean(true)),
        boolean(false)
    );
    assert_eq!(
        evalInfixExpression("==", error("a"), error("a")),
        error("unknown operator: ERROR == ERROR")
    );
    assert_eq!(
        evalInfixExpression("+", integer(1), error("a")),
        error("type mismatch: INTEGER + ERROR")
    );
}

#[test]
fn every_short_text_is_parsed_and_evaluated() {
    let alphabet = ['x', '7', '=', '!', '-', '*', '<', '(', ')', ';', ' ', '@'];
    let mut texts: Vec<String> = vec![String::new()];
    let mut start = 0;
    for _ in 0..4 {
        let end = texts.len();
        for i in start..end {
            for c in alphabet {
                let mut longer = texts[i].clone();
                longer.push(c);
                texts.push(longer);
            }
        }
        start = end;
    }
    for text in &texts {
        let mut parser = Parser::New(Lexer::New(text));
        let program = parser.ParseProgram();
        let printed = program.String();
        if parser.Errors().is_empty() {
            let mut again = Parser::New(Lexer::New(&printed));
            assert_eq!(again.ParseProgram().String(), printed, "{:?}", text);
        }
        let first = testEval(text);
        let second = Eval(program.into());
        assert_eq!(first, second, "{:?}", text);
    }
}
