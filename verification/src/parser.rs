//! The parser: statements by recursive descent, expressions by operator
//! precedence. A mismatch is recorded as a diagnostic and parsing goes on
//! with what follows.

use vstd::prelude::*;

use crate::ast::{
    ExprModel, ExpressionEnum, ExpressionStatement, Identifier, IdentifierModel, InfixExpression,
    IntegerLiteral, LetStatement, PrefixExpression, Program, ReturnStatement, StatementEnum,
    StmtModel,
};
use crate::decimal::{decimal_value, is_decimal, parse_integer, parsed_integer};
use crate::lexer::{
    is_digit, lemma_run_to_the_end, lemma_token_advances, lemma_token_in_bounds, next_token,
    run_length, token_shape, CharClass, Lexed, Lexer,
};
use crate::token::{kind_name, Token, TokenKind, TokenModel};

verus! {

/// Binding power of a position at which no operator binds.
pub const LOWEST: u8 = 0;

/// Binding power of `==` and `!=`.
pub const EQUALS: u8 = 1;

/// Binding power of `<` and `>`.
pub const LESSGREATER: u8 = 2;

/// Binding power of `+` and `-`.
pub const SUM: u8 = 3;

/// Binding power of `*` and `/`.
pub const PRODUCT: u8 = 4;

/// Binding power of the operand of a prefix operator.
pub const PREFIX: u8 = 5;

/// The binding power of a token as an infix operator; `LOWEST` for a token
/// that is none.
pub open spec fn precedence_of(kind: TokenKind) -> u8 {
    match kind {
        TokenKind::EQ | TokenKind::NOT_EQ => EQUALS,
        TokenKind::LT | TokenKind::GT => LESSGREATER,
        TokenKind::PLUS | TokenKind::MINUS => SUM,
        TokenKind::ASTERISK | TokenKind::SLASH => PRODUCT,
        _ => LOWEST,
    }
}

/// The diagnostic for a token of kind `got` where one of kind `expected`
/// had to follow.
pub open spec fn expected_text(expected: TokenKind, got: TokenKind) -> Seq<char> {
    "expected next token to be `"@ + kind_name(expected) + "`, got `"@ + kind_name(got)
        + "` instead"@
}

/// The diagnostic for a token that cannot start an expression.
pub open spec fn no_prefix_text(kind: TokenKind) -> Seq<char> {
    "no prefix parse function for `"@ + kind_name(kind) + "` found"@
}

/// The diagnostic for a run of digits that denotes no 64-bit signed integer.
pub open spec fn bad_integer_text(literal: Seq<char>) -> Seq<char> {
    "could not parse `"@ + literal + "` as integer"@
}

/// The parser looks at two tokens at a time. Its position in the text is the
/// place from which its current token was read, whitespace included; the
/// token after it is the one it peeks at.
pub open spec fn current(src: Seq<char>, at: int) -> TokenModel {
    next_token(src, at).token
}

/// How far the position moves when the parser steps to the next token.
pub open spec fn step(src: Seq<char>, at: int) -> nat {
    next_token(src, at).span
}

/// The token after the current one.
pub open spec fn peeked(src: Seq<char>, at: int) -> TokenModel {
    current(src, at + step(src, at))
}

/// How many characters of the text lie from position `at` on.
pub open spec fn remaining(src: Seq<char>, at: int) -> nat {
    if at <= src.len() {
        (src.len() - at) as nat
    } else {
        0
    }
}

/// The outcome of parsing one construct: the node, if one could be built;
/// how far the parser's position moved; and the diagnostics recorded on the
/// way, in order.
pub struct Parsed<T> {
    pub value: Option<T>,
    pub consumed: nat,
    pub errors: Seq<Seq<char>>,
}

/// Parses the expression that starts at the current token. Only operators
/// that bind more tightly than `min_precedence` are folded into it.
/// Afterwards the current token is the last token of the expression.
pub open spec fn parse_expression(src: Seq<char>, at: int, min_precedence: u8) -> Parsed<
    ExprModel,
>
    decreases remaining(src, at), 2int,
{
    let first = parse_prefix(src, at);
    match first.value {
        None => first,
        Some(left) => {
            let rest = parse_infix(src, at + first.consumed, min_precedence, left);
            Parsed {
                value: rest.value,
                consumed: first.consumed + rest.consumed,
                errors: first.errors + rest.errors,
            }
        },
    }
}

/// Parses what an expression can start with: an identifier, an integer
/// literal, a prefix operator with its operand, or an expression in
/// parentheses, which stands for the expression inside.
pub open spec fn parse_prefix(src: Seq<char>, at: int) -> Parsed<ExprModel>
    decreases remaining(src, at), 1int,
{
    let token = current(src, at);
    match token.kind {
        TokenKind::IDENT => Parsed {
            value: Some(
                ExprModel::Identifier(IdentifierModel { token, value: token.literal }),
            ),
            consumed: 0,
            errors: Seq::empty(),
        },
        TokenKind::INT => match parsed_integer(token.literal) {
            Some(value) => Parsed {
                value: Some(ExprModel::IntegerLiteral { token, value }),
                consumed: 0,
                errors: Seq::empty(),
            },
            None => Parsed {
                value: None,
                consumed: 0,
                errors: seq![bad_integer_text(token.literal)],
            },
        },
        TokenKind::BANG | TokenKind::MINUS => {
            proof {
                lemma_token_advances(src, at);
            }
            let operand = parse_expression(src, at + step(src, at), PREFIX);
            Parsed {
                value: match operand.value {
                    Some(right) => Some(
                        ExprModel::Prefix {
                            token,
                            operator: token.literal,
                            right: Box::new(right),
                        },
                    ),
                    None => None,
                },
                consumed: step(src, at) + operand.consumed,
                errors: operand.errors,
            }
        },
        TokenKind::LPAREN => {
            proof {
                lemma_token_advances(src, at);
            }
            let inner = parse_expression(src, at + step(src, at), LOWEST);
            let end = at + step(src, at) + inner.consumed;
            if inner.value is None {
                Parsed {
                    value: None,
                    consumed: step(src, at) + inner.consumed,
                    errors: inner.errors,
                }
            } else if peeked(src, end).kind == TokenKind::RPAREN {
                Parsed {
                    value: inner.value,
                    consumed: step(src, at) + inner.consumed + step(src, end),
                    errors: inner.errors,
                }
            } else {
                Parsed {
                    value: None,
                    consumed: step(src, at) + inner.consumed,
                    errors: inner.errors.push(
                        expected_text(TokenKind::RPAREN, peeked(src, end).kind),
                    ),
                }
            }
        },
        _ => Parsed { value: None, consumed: 0, errors: seq![no_prefix_text(token.kind)] },
    }
}

/// Folds infix operators into `left` for as long as the token after the
/// current one binds more tightly than `min_precedence`. The right operand of
/// an operator takes in only what binds more tightly than the operator
/// itself, so operators of equal binding power group to the left.
pub open spec fn parse_infix(src: Seq<char>, at: int, min_precedence: u8, left: ExprModel)
    -> Parsed<ExprModel>
    decreases remaining(src, at), 0int,
{
    let operator = peeked(src, at);
    if min_precedence < precedence_of(operator.kind) {
        let at_operator = at + step(src, at);
        let at_operand = at_operator + step(src, at_operator);
        proof {
            lemma_token_advances(src, at_operator);
        }
        let operand = parse_expression(src, at_operand, precedence_of(operator.kind));
        match operand.value {
            None => Parsed {
                value: None,
                consumed: step(src, at) + step(src, at_operator) + operand.consumed,
                errors: operand.errors,
            },
            Some(right) => {
                let folded = ExprModel::Infix {
                    token: operator,
                    left: Box::new(left),
                    operator: operator.literal,
                    right: Box::new(right),
                };
                let rest = parse_infix(
                    src,
                    at_operand + operand.consumed,
                    min_precedence,
                    folded,
                );
                Parsed {
                    value: rest.value,
                    consumed: step(src, at) + step(src, at_operator) + operand.consumed
                        + rest.consumed,
                    errors: operand.errors + rest.errors,
                }
            },
        }
    } else {
        Parsed { value: Some(left), consumed: 0, errors: Seq::empty() }
    }
}

/// Closes a statement that has to end in `;`: if the token after the current
/// one is `;`, the parser steps onto it and the statement stands; otherwise
/// a diagnostic is recorded and the statement is dropped.
pub open spec fn terminated(
    src: Seq<char>,
    at: int,
    moved: nat,
    errors: Seq<Seq<char>>,
    statement: StmtModel,
) -> Parsed<StmtModel> {
    let end = at + moved;
    if peeked(src, end).kind == TokenKind::SEMICOLON {
        Parsed { value: Some(statement), consumed: moved + step(src, end), errors }
    } else {
        Parsed {
            value: None,
            consumed: moved,
            errors: errors.push(expected_text(TokenKind::SEMICOLON, peeked(src, end).kind)),
        }
    }
}

/// Parses `let <identifier> = <expression>;` with the current token at
/// `let`. Afterwards the current token is the closing `;`, or the token at
/// which parsing gave up.
pub open spec fn parse_let_statement(src: Seq<char>, at: int) -> Parsed<StmtModel> {
    let token = current(src, at);
    let name = peeked(src, at);
    let at_name = at + step(src, at);
    let assign = peeked(src, at_name);
    let at_assign = at_name + step(src, at_name);
    let at_value = at_assign + step(src, at_assign);
    if name.kind != TokenKind::IDENT {
        Parsed {
            value: None,
            consumed: 0,
            errors: seq![expected_text(TokenKind::IDENT, name.kind)],
        }
    } else if assign.kind != TokenKind::ASSIGN {
        Parsed {
            value: None,
            consumed: step(src, at),
            errors: seq![expected_text(TokenKind::ASSIGN, assign.kind)],
        }
    } else {
        let value = parse_expression(src, at_value, LOWEST);
        let moved = step(src, at) + step(src, at_name) + step(src, at_assign) + value.consumed;
        match value.value {
            None => Parsed { value: None, consumed: moved, errors: value.errors },
            Some(v) => terminated(
                src,
                at,
                moved,
                value.errors,
                StmtModel::Let {
                    token,
                    name: IdentifierModel { token: name, value: name.literal },
                    value: v,
                },
            ),
        }
    }
}

/// Parses `return <expression>;` with the current token at `return`.
pub open spec fn parse_return_statement(src: Seq<char>, at: int) -> Parsed<StmtModel> {
    let token = current(src, at);
    let value = parse_expression(src, at + step(src, at), LOWEST);
    let moved = step(src, at) + value.consumed;
    match value.value {
        None => Parsed { value: None, consumed: moved, errors: value.errors },
        Some(v) => terminated(src, at, moved, value.errors, StmtModel::Return { token, value: v }),
    }
}

/// Parses a statement that is a bare expression. The statement stands even
/// where no expression could be built; a `;` behind it is taken in.
pub open spec fn parse_expression_statement(src: Seq<char>, at: int) -> Parsed<StmtModel> {
    let token = current(src, at);
    let expression = parse_expression(src, at, LOWEST);
    let end = at + expression.consumed;
    Parsed {
        value: Some(StmtModel::Expression { token, expression: expression.value }),
        consumed: if peeked(src, end).kind == TokenKind::SEMICOLON {
            expression.consumed + step(src, end)
        } else {
            expression.consumed
        },
        errors: expression.errors,
    }
}

/// Parses the statement that starts at the current token: the token `let`
/// starts a let statement, `return` a return statement, any other token an
/// expression statement.
pub open spec fn parse_statement(src: Seq<char>, at: int) -> Parsed<StmtModel> {
    match current(src, at).kind {
        TokenKind::LET => parse_let_statement(src, at),
        TokenKind::RETURN => parse_return_statement(src, at),
        _ => parse_expression_statement(src, at),
    }
}

/// The outcome of parsing a whole text: the statements that could be built,
/// the diagnostics, and how far the parser's position moved.
pub struct ParsedProgram {
    pub statements: Seq<StmtModel>,
    pub errors: Seq<Seq<char>>,
    pub consumed: nat,
}

/// Parses statements until the current token is `EOF`. After each
/// statement, built or not, the parser steps to the next token.
pub open spec fn parse_program(src: Seq<char>, at: int) -> ParsedProgram
    decreases remaining(src, at),
{
    if current(src, at).kind == TokenKind::EOF {
        ParsedProgram { statements: Seq::empty(), errors: Seq::empty(), consumed: 0 }
    } else {
        let first = parse_statement(src, at);
        let end = at + first.consumed;
        proof {
            lemma_token_advances(src, at);
        }
        let rest = parse_program(src, end + step(src, end));
        ParsedProgram {
            statements: match first.value {
                Some(statement) => seq![statement] + rest.statements,
                None => rest.statements,
            },
            errors: first.errors + rest.errors,
            consumed: first.consumed + step(src, end) + rest.consumed,
        }
    }
}

/// What parsing the text `src` from its start gives.
pub open spec fn parse_source(src: Seq<char>) -> ParsedProgram {
    parse_program(src, 0)
}

/// A text that is nothing but a run of digits, denoting a number that 64
/// bits can hold, parses without a diagnostic to one statement: the
/// expression statement of the integer literal with that value.
pub proof fn lemma_integer_literal_parses(text: Seq<char>)
    requires
        is_decimal(text),
        decimal_value(text) <= i64::MAX,
    ensures
        parse_source(text).errors == Seq::<Seq<char>>::empty(),
        parse_source(text).statements == seq![
            StmtModel::Expression {
                token: TokenModel { kind: TokenKind::INT, literal: text },
                expression: Some(
                    ExprModel::IntegerLiteral {
                        token: TokenModel { kind: TokenKind::INT, literal: text },
                        value: decimal_value(text) as i64,
                    },
                ),
            },
        ],
{
    let end = text.len() as int;
    let token = TokenModel { kind: TokenKind::INT, literal: text };
    let literal = ExprModel::IntegerLiteral { token, value: decimal_value(text) as i64 };
    let statement = StmtModel::Expression { token, expression: Some(literal) };
    reveal(next_token);
    assert(is_digit(text[0]));
    assert(run_length(text, 0, CharClass::Whitespace) == 0);
    lemma_run_to_the_end(text, 0, CharClass::Digit);
    assert(token_shape(text, 0) == (TokenKind::INT, text.len()));
    assert(text.subrange(0, end) =~= text);
    assert(next_token(text, 0) == Lexed { token, span: text.len() });
    assert(run_length(text, end, CharClass::Whitespace) == 0);
    assert(current(text, end).kind == TokenKind::EOF);
    assert(peeked(text, 0).kind == TokenKind::EOF);
    assert(parse_prefix(text, 0) == Parsed {
        value: Some(literal),
        consumed: 0,
        errors: Seq::empty(),
    });
    assert(parse_infix(text, 0, LOWEST, literal) == Parsed {
        value: Some(literal),
        consumed: 0,
        errors: Seq::empty(),
    });
    let expression = parse_expression(text, 0, LOWEST);
    assert(expression.value == Some(literal));
    assert(expression.consumed == 0);
    assert(expression.errors =~= Seq::<Seq<char>>::empty());
    let first = parse_statement(text, 0);
    assert(first.value == Some(statement));
    assert(first.consumed == 0);
    let rest = parse_program(text, end);
    assert(rest.statements =~= Seq::<StmtModel>::empty());
    assert(rest.errors =~= Seq::<Seq<char>>::empty());
    assert(parse_source(text).statements =~= seq![statement]);
    assert(parse_source(text).errors =~= Seq::<Seq<char>>::empty());
}

/// The identifier expression made of one token.
pub open spec fn name_of(token: TokenModel) -> ExprModel {
    ExprModel::Identifier(IdentifierModel { token, value: token.literal })
}

/// The infix expression made of an operator token and its two operands.
pub open spec fn infix_of(left: ExprModel, operator: TokenModel, right: ExprModel) -> ExprModel {
    ExprModel::Infix {
        token: operator,
        left: Box::new(left),
        operator: operator.literal,
        right: Box::new(right),
    }
}

/// How two operators between three names are grouped. Let the tokens from
/// the current one on be a name, an operator, a name, an operator and a
/// name, followed by a token that is no operator. If the second operator
/// binds more tightly than the first, it takes the middle name as its left
/// operand; otherwise the first operator takes it as its right operand,
/// which is how operators of equal binding power come to group to the left.
pub proof fn lemma_two_operators_group_by_binding_power(src: Seq<char>, at: int)
    requires
        ({
            let at1 = at + step(src, at);
            let at2 = at1 + step(src, at1);
            let at3 = at2 + step(src, at2);
            let at4 = at3 + step(src, at3);
            &&& current(src, at).kind == TokenKind::IDENT
            &&& precedence_of(current(src, at1).kind) > LOWEST
            &&& current(src, at2).kind == TokenKind::IDENT
            &&& precedence_of(current(src, at3).kind) > LOWEST
            &&& current(src, at4).kind == TokenKind::IDENT
            &&& precedence_of(peeked(src, at4).kind) == LOWEST
        }),
    ensures
        ({
            let at1 = at + step(src, at);
            let at2 = at1 + step(src, at1);
            let at3 = at2 + step(src, at2);
            let at4 = at3 + step(src, at3);
            let a = name_of(current(src, at));
            let first = current(src, at1);
            let b = name_of(current(src, at2));
            let second = current(src, at3);
            let c = name_of(current(src, at4));
            parse_expression(src, at, LOWEST) == (Parsed::<ExprModel> {
                value: Some(
                    if precedence_of(second.kind) > precedence_of(first.kind) {
                        infix_of(a, first, infix_of(b, second, c))
                    } else {
                        infix_of(infix_of(a, first, b), second, c)
                    },
                ),
                consumed: (at4 - at) as nat,
                errors: Seq::empty(),
            })
        }),
{
    let at1 = at + step(src, at);
    let at2 = at1 + step(src, at1);
    let at3 = at2 + step(src, at2);
    let at4 = at3 + step(src, at3);
    let a = name_of(current(src, at));
    let first = current(src, at1);
    let b = name_of(current(src, at2));
    let second = current(src, at3);
    let c = name_of(current(src, at4));
    let none = Seq::<Seq<char>>::empty();
    let low = precedence_of(first.kind);
    let high = precedence_of(second.kind);
    // The last name stands alone, whatever is asked of it.
    assert(parse_prefix(src, at4) == Parsed { value: Some(c), consumed: 0, errors: none });
    assert forall|power: u8, left: ExprModel| #[trigger]
        parse_infix(src, at4, power, left) == (Parsed::<ExprModel> {
            value: Some(left),
            consumed: 0,
            errors: none,
        }) by {}
    let last = parse_expression(src, at4, high);
    assert(last.value == Some(c) && last.consumed == 0 && last.errors =~= none);
    assert(at4 + last.consumed == at4);
    assert(parse_prefix(src, at2) == Parsed { value: Some(b), consumed: 0, errors: none });
    assert(parse_prefix(src, at) == Parsed { value: Some(a), consumed: 0, errors: none });
    if high > low {
        let right = infix_of(b, second, c);
        let after = parse_infix(src, at4, low, right);
        assert(after.value == Some(right) && after.consumed == 0 && after.errors == none);
        let inner = parse_infix(src, at2, low, b);
        assert(inner.value == Some(right));
        assert(inner.consumed == at4 - at2);
        assert(inner.errors =~= none);
        let operand = parse_expression(src, at2, low);
        assert(operand.value == Some(right));
        assert(operand.consumed == at4 - at2);
        assert(operand.errors =~= none);
        assert(at2 + operand.consumed == at4);
        let whole = infix_of(a, first, right);
        let end = parse_infix(src, at4, LOWEST, whole);
        assert(end.value == Some(whole) && end.consumed == 0 && end.errors == none);
        let outer = parse_infix(src, at, LOWEST, a);
        assert(outer.value == Some(whole));
        assert(outer.consumed == at4 - at);
        assert(outer.errors =~= none);
        assert(parse_expression(src, at, LOWEST).errors =~= none);
    } else {
        let left = infix_of(a, first, b);
        assert(parse_infix(src, at2, low, b) == Parsed {
            value: Some(b),
            consumed: 0,
            errors: none,
        });
        let operand = parse_expression(src, at2, low);
        assert(operand.value == Some(b));
        assert(operand.consumed == 0);
        assert(operand.errors =~= none);
        assert(at2 + operand.consumed == at2);
        let whole = infix_of(left, second, c);
        let end = parse_infix(src, at4, LOWEST, whole);
        assert(end.value == Some(whole) && end.consumed == 0 && end.errors == none);
        let rest = parse_infix(src, at2, LOWEST, left);
        assert(rest.value == Some(whole));
        assert(rest.consumed == at4 - at2);
        assert(rest.errors =~= none);
        let outer = parse_infix(src, at, LOWEST, a);
        assert(outer.value == Some(whole));
        assert(outer.consumed == at4 - at);
        assert(outer.errors =~= none);
        assert(parse_expression(src, at, LOWEST).errors =~= none);
    }
}

/// The prefix expression made of an operator token and its operand.
pub open spec fn prefix_of(operator: TokenModel, right: ExprModel) -> ExprModel {
    ExprModel::Prefix { token: operator, operator: operator.literal, right: Box::new(right) }
}

/// A prefix operator binds more tightly than any infix operator. Let the
/// tokens from the current one on be `!` or `-`, a name, an infix operator
/// and a name, followed by a token that is no operator. Then the prefix
/// operator takes the first name alone, and what it makes is the left
/// operand of the infix operator.
pub proof fn lemma_prefix_binds_before_infix(src: Seq<char>, at: int)
    requires
        ({
            let at1 = at + step(src, at);
            let at2 = at1 + step(src, at1);
            let at3 = at2 + step(src, at2);
            &&& current(src, at).kind == TokenKind::BANG || current(src, at).kind
                == TokenKind::MINUS
            &&& current(src, at1).kind == TokenKind::IDENT
            &&& precedence_of(current(src, at2).kind) > LOWEST
            &&& current(src, at3).kind == TokenKind::IDENT
            &&& precedence_of(peeked(src, at3).kind) == LOWEST
        }),
    ensures
        ({
            let at1 = at + step(src, at);
            let at2 = at1 + step(src, at1);
            let at3 = at2 + step(src, at2);
            parse_expression(src, at, LOWEST) == (Parsed::<ExprModel> {
                value: Some(
                    infix_of(
                        prefix_of(current(src, at), name_of(current(src, at1))),
                        current(src, at2),
                        name_of(current(src, at3)),
                    ),
                ),
                consumed: (at3 - at) as nat,
                errors: Seq::empty(),
            })
        }),
{
    let at1 = at + step(src, at);
    let at2 = at1 + step(src, at1);
    let at3 = at2 + step(src, at2);
    let a = name_of(current(src, at1));
    let b = name_of(current(src, at3));
    let none = Seq::<Seq<char>>::empty();
    let negated = prefix_of(current(src, at), a);
    let whole = infix_of(negated, current(src, at2), b);
    let power = precedence_of(current(src, at2).kind);
    // The operand of the prefix operator is the first name alone.
    assert(parse_prefix(src, at1) == Parsed { value: Some(a), consumed: 0, errors: none });
    assert(parse_infix(src, at1, PREFIX, a) == Parsed {
        value: Some(a),
        consumed: 0,
        errors: none,
    });
    let operand = parse_expression(src, at1, PREFIX);
    assert(operand.value == Some(a) && operand.consumed == 0 && operand.errors =~= none);
    let first = parse_prefix(src, at);
    assert(first.value == Some(negated));
    assert(first.consumed == step(src, at));
    assert(first.errors =~= none);
    // The right operand of the infix operator is the second name alone.
    assert(parse_prefix(src, at3) == Parsed { value: Some(b), consumed: 0, errors: none });
    assert(parse_infix(src, at3, power, b) == Parsed {
        value: Some(b),
        consumed: 0,
        errors: none,
    });
    let right = parse_expression(src, at3, power);
    assert(right.value == Some(b) && right.consumed == 0 && right.errors =~= none);
    assert(at3 + right.consumed == at3);
    let end = parse_infix(src, at3, LOWEST, whole);
    assert(end.value == Some(whole) && end.consumed == 0 && end.errors == none);
    let rest = parse_infix(src, at1, LOWEST, negated);
    assert(rest.value == Some(whole));
    assert(rest.consumed == at3 - at1);
    assert(rest.errors =~= none);
    assert(at + first.consumed == at1);
    assert(parse_expression(src, at, LOWEST).errors =~= none);
}

/// Whether an expression can start with a token of this kind.
pub open spec fn starts_expression(kind: TokenKind) -> bool {
    kind == TokenKind::IDENT || kind == TokenKind::INT || kind == TokenKind::BANG || kind
        == TokenKind::MINUS || kind == TokenKind::LPAREN
}

/// Where the current token cannot start an expression, no expression is
/// built, the parser stays where it is, and the one diagnostic names the
/// token's kind.
pub proof fn lemma_no_prefix_is_reported(src: Seq<char>, at: int, min_precedence: u8)
    requires
        !starts_expression(current(src, at).kind),
    ensures
        parse_expression(src, at, min_precedence) == (Parsed::<ExprModel> {
            value: None,
            consumed: 0,
            errors: seq![no_prefix_text(current(src, at).kind)],
        }),
{
}

/// A `let` that is not followed by a name and then `=` is reported: the
/// first diagnostic of the program from there on says which of the two was
/// expected and what stood in its place.
pub proof fn lemma_broken_let_is_reported(src: Seq<char>, at: int)
    requires
        current(src, at).kind == TokenKind::LET,
        peeked(src, at).kind != TokenKind::IDENT || peeked(src, at + step(src, at)).kind
            != TokenKind::ASSIGN,
    ensures
        parse_program(src, at).errors.len() > 0,
        parse_program(src, at).errors[0] == if peeked(src, at).kind != TokenKind::IDENT {
            expected_text(TokenKind::IDENT, peeked(src, at).kind)
        } else {
            expected_text(TokenKind::ASSIGN, peeked(src, at + step(src, at)).kind)
        },
{
    let first = parse_statement(src, at);
}

/// The texts of a list of diagnostics.
pub open spec fn texts(messages: Seq<String>) -> Seq<Seq<char>> {
    messages.map_values(|message: String| message@)
}

/// The statements that a list of statement nodes stands for.
pub open spec fn statement_models<'src>(nodes: Seq<StatementEnum<'src>>) -> Seq<StmtModel> {
    nodes.map_values(|node: StatementEnum<'src>| node@)
}

/// The expression that a tree stands for, if there is a tree.
pub open spec fn expression_of<'src>(node: Option<ExpressionEnum<'src>>) -> Option<ExprModel> {
    match node {
        Some(e) => Some(e@),
        None => None,
    }
}

/// The statement that a tree stands for, if there is a tree.
pub open spec fn statement_of<'src>(node: Option<StatementEnum<'src>>) -> Option<StmtModel> {
    match node {
        Some(s) => Some(s@),
        None => None,
    }
}

/// The binding power of a token as an infix operator.
pub fn precedence(kind: TokenKind) -> (power: u8)
    ensures
        power == precedence_of(kind),
{
    match kind {
        TokenKind::EQ | TokenKind::NOT_EQ => EQUALS,
        TokenKind::LT | TokenKind::GT => LESSGREATER,
        TokenKind::PLUS | TokenKind::MINUS => SUM,
        TokenKind::ASTERISK | TokenKind::SLASH => PRODUCT,
        _ => LOWEST,
    }
}

/// Writes the diagnostic for an unexpected token.
fn expected_message(expected: TokenKind, got: TokenKind) -> (message: String)
    ensures
        message@ == expected_text(expected, got),
{
    let mut message = String::from_str("expected next token to be `");
    message.append(expected.name());
    message.append("`, got `");
    message.append(got.name());
    message.append("` instead");
    message
}

/// Writes the diagnostic for a token that cannot start an expression.
fn no_prefix_message(kind: TokenKind) -> (message: String)
    ensures
        message@ == no_prefix_text(kind),
{
    let mut message = String::from_str("no prefix parse function for `");
    message.append(kind.name());
    message.append("` found");
    message
}

/// Writes the diagnostic for digits that denote no 64-bit signed integer.
fn bad_integer_message(literal: &str) -> (message: String)
    ensures
        message@ == bad_integer_text(literal@),
{
    let mut message = String::from_str("could not parse `");
    message.append(literal);
    message.append("` as integer");
    message
}

/// A parser over the tokens of one lexer.
pub struct Parser<'src> {
    lexer: Lexer<'src>,
    curToken: Token<'src>,
    peekToken: Token<'src>,
    errors: Vec<String>,
    at: Ghost<int>,
}

impl<'src> Parser<'src> {
    /// The source text.
    pub closed spec fn source(&self) -> Seq<char> {
        self.lexer.source()
    }

    /// The place in the source from which the current token was read.
    pub closed spec fn position(&self) -> int {
        self.at@
    }

    /// The diagnostics recorded so far, in order.
    pub closed spec fn diagnostics(&self) -> Seq<Seq<char>> {
        texts(self.errors@)
    }

    /// The parser's invariant: its two tokens are the ones the lexer hands
    /// out at its position, and the lexer stands right behind them.
    pub closed spec fn well_formed(&self) -> bool {
        let src = self.lexer.source();
        let at = self.at@;
        &&& self.lexer.well_formed()
        &&& 0 <= at <= src.len()
        &&& self.curToken@ == current(src, at)
        &&& self.peekToken@ == peeked(src, at)
        &&& self.lexer.cursor() == at + step(src, at) + step(src, at + step(src, at))
    }

    /// A parser that starts where `lexer` stands, with no diagnostics.
    pub fn New(lexer: Lexer<'src>) -> (parser: Self)
        requires
            lexer.well_formed(),
        ensures
            parser.well_formed(),
            parser.source() == lexer.source(),
            parser.position() == lexer.cursor(),
            parser.diagnostics() == Seq::<Seq<char>>::empty(),
    {
        let ghost at = lexer.cursor();
        proof {
            lexer.lemma_cursor_in_bounds();
        }
        let mut lexer = lexer;
        let curToken = lexer.NextToken();
        let peekToken = lexer.NextToken();
        let parser = Parser { lexer, curToken, peekToken, errors: Vec::new(), at: Ghost(at) };
        parser
    }

    /// The diagnostics recorded so far.
    pub fn Errors(&self) -> (errors: &Vec<String>)
        ensures
            texts(errors@) == self.diagnostics(),
    {
        &self.errors
    }

    /// Whether this parser is what `before` becomes by moving `consumed`
    /// characters on and recording `errors`.
    closed spec fn follows(&self, before: Self, consumed: nat, errors: Seq<Seq<char>>) -> bool {
        &&& self.well_formed()
        &&& self.source() == before.source()
        &&& self.position() == before.position() + consumed
        &&& self.diagnostics() == before.diagnostics() + errors
    }

    /// Steps to the next token.
    fn nextToken(&mut self)
        requires
            old(self).well_formed(),
        ensures
            final(self).follows(
                *old(self),
                step(old(self).source(), old(self).position()),
                Seq::empty(),
            ),
            remaining(final(self).source(), final(self).position()) <= remaining(
                old(self).source(),
                old(self).position(),
            ),
            current(old(self).source(), old(self).position()).kind != TokenKind::EOF
                ==> remaining(final(self).source(), final(self).position()) < remaining(
                old(self).source(),
                old(self).position(),
            ),
    {
        proof {
            lemma_token_in_bounds(self.lexer.source(), self.at@);
        }
        self.curToken = self.peekToken;
        self.peekToken = self.lexer.NextToken();
        self.at = Ghost(self.at@ + step(self.lexer.source(), self.at@));
    }

    /// Records a diagnostic.
    fn record(&mut self, message: String)
        requires
            old(self).well_formed(),
        ensures
            final(self).follows(*old(self), 0, seq![message@]),
    {
        self.errors.push(message);
        assert(self.diagnostics() =~= old(self).diagnostics() + seq![message@]);
    }

    /// Steps to the next token if it is of kind `expected`; records a
    /// diagnostic and stays otherwise.
    fn expectPeek(&mut self, expected: TokenKind) -> (found: bool)
        requires
            old(self).well_formed(),
        ensures
            found == (peeked(old(self).source(), old(self).position()).kind == expected),
            found ==> final(self).follows(
                *old(self),
                step(old(self).source(), old(self).position()),
                Seq::empty(),
            ),
            !found ==> final(self).follows(
                *old(self),
                0,
                seq![
                    expected_text(expected, peeked(old(self).source(), old(self).position()).kind),
                ],
            ),
    {
        if self.peekToken.kind == expected {
            self.nextToken();
            true
        } else {
            let message = expected_message(expected, self.peekToken.kind);
            self.record(message);
            false
        }
    }

    /// Makes the identifier at the current token.
    fn parseIdentifier(&self) -> (node: ExpressionEnum<'src>)
        requires
            self.well_formed(),
            current(self.source(), self.position()).kind == TokenKind::IDENT,
        ensures
            parse_prefix(self.source(), self.position()) == (Parsed::<ExprModel> {
                value: Some(node@),
                consumed: 0,
                errors: Seq::empty(),
            }),
    {
        ExpressionEnum::Identifier(
            Identifier { token: self.curToken, value: self.curToken.literal },
        )
    }

    /// Reads the integer literal at the current token.
    fn parseIntegerLiteral(&mut self) -> (node: Option<ExpressionEnum<'src>>)
        requires
            old(self).well_formed(),
            current(old(self).source(), old(self).position()).kind == TokenKind::INT,
        ensures
            expression_of(node) == parse_prefix(old(self).source(), old(self).position()).value,
            final(self).follows(
                *old(self),
                parse_prefix(old(self).source(), old(self).position()).consumed,
                parse_prefix(old(self).source(), old(self).position()).errors,
            ),
    {
        let token = self.curToken;
        match parse_integer(token.literal) {
            Some(value) => Some(
                ExpressionEnum::IntegerLiteral(IntegerLiteral { token, value }),
            ),
            None => {
                self.record(bad_integer_message(token.literal));
                None
            },
        }
    }

    /// Parses `<operator> <operand>`, with the current token at the prefix
    /// operator.
    fn parsePrefixExpression(&mut self) -> (node: Option<ExpressionEnum<'src>>)
        requires
            old(self).well_formed(),
            current(old(self).source(), old(self).position()).kind == TokenKind::BANG || current(
                old(self).source(),
                old(self).position(),
            ).kind == TokenKind::MINUS,
        ensures
            expression_of(node) == parse_prefix(old(self).source(), old(self).position()).value,
            final(self).follows(
                *old(self),
                parse_prefix(old(self).source(), old(self).position()).consumed,
                parse_prefix(old(self).source(), old(self).position()).errors,
            ),
        decreases remaining(old(self).source(), old(self).position()), 0int,
    {
        let token = self.curToken;
        self.nextToken();
        match self.parseExpression(PREFIX) {
            Some(right) => Some(
                ExpressionEnum::PrefixExpression(
                    PrefixExpression { token, operator: token.literal, right: Box::new(right) },
                ),
            ),
            None => None,
        }
    }

    /// Parses `( <expression> )`, with the current token at the opening
    /// parenthesis.
    fn parseGroupedExpression(&mut self) -> (node: Option<ExpressionEnum<'src>>)
        requires
            old(self).well_formed(),
            current(old(self).source(), old(self).position()).kind == TokenKind::LPAREN,
        ensures
            expression_of(node) == parse_prefix(old(self).source(), old(self).position()).value,
            final(self).follows(
                *old(self),
                parse_prefix(old(self).source(), old(self).position()).consumed,
                parse_prefix(old(self).source(), old(self).position()).errors,
            ),
        decreases remaining(old(self).source(), old(self).position()), 0int,
    {
        let ghost before = self.diagnostics();
        self.nextToken();
        let ghost errors = parse_expression(self.source(), self.position(), LOWEST).errors;
        match self.parseExpression(LOWEST) {
            Some(inner) => {
                let ghost closing = expected_text(
                    TokenKind::RPAREN,
                    peeked(self.source(), self.position()).kind,
                );
                if self.expectPeek(TokenKind::RPAREN) {
                    Some(inner)
                } else {
                    assert(before + errors + seq![closing] =~= before + errors.push(closing));
                    None
                }
            },
            None => None,
        }
    }

    /// Parses the identifier or integer literal, the prefix expression or
    /// the expression in parentheses at the current token.
    fn parsePrefix(&mut self) -> (node: Option<ExpressionEnum<'src>>)
        requires
            old(self).well_formed(),
        ensures
            expression_of(node) == parse_prefix(old(self).source(), old(self).position()).value,
            final(self).follows(
                *old(self),
                parse_prefix(old(self).source(), old(self).position()).consumed,
                parse_prefix(old(self).source(), old(self).position()).errors,
            ),
        decreases remaining(old(self).source(), old(self).position()), 1int,
    {
        match self.curToken.kind {
            TokenKind::IDENT => Some(self.parseIdentifier()),
            TokenKind::INT => self.parseIntegerLiteral(),
            TokenKind::BANG | TokenKind::MINUS => self.parsePrefixExpression(),
            TokenKind::LPAREN => self.parseGroupedExpression(),
            kind => {
                self.record(no_prefix_message(kind));
                None
            },
        }
    }

    /// Parses `<operator> <right operand>` behind the expression `left`,
    /// with the current token at the operator.
    fn parseInfixExpression(&mut self, left: ExpressionEnum<'src>) -> (node: Option<
        ExpressionEnum<'src>,
    >)
        requires
            old(self).well_formed(),
            precedence_of(current(old(self).source(), old(self).position()).kind) > LOWEST,
        ensures
            ({
                let src = old(self).source();
                let at = old(self).position();
                let operator = current(src, at);
                let operand = parse_expression(
                    src,
                    at + step(src, at),
                    precedence_of(operator.kind),
                );
                &&& final(self).follows(
                    *old(self),
                    step(src, at) + operand.consumed,
                    operand.errors,
                )
                &&& match node {
                    Some(e) => operand.value is Some && e@ == (ExprModel::Infix {
                        token: operator,
                        left: Box::new(left@),
                        operator: operator.literal,
                        right: Box::new(operand.value->0),
                    }),
                    None => operand.value is None,
                }
            }),
        decreases remaining(old(self).source(), old(self).position()), 0int,
    {
        let token = self.curToken;
        let power = precedence(token.kind);
        self.nextToken();
        match self.parseExpression(power) {
            Some(right) => Some(
                ExpressionEnum::InfixExpression(
                    InfixExpression {
                        token,
                        left: Box::new(left),
                        operator: token.literal,
                        right: Box::new(right),
                    },
                ),
            ),
            None => None,
        }
    }

    /// Parses the expression at the current token, folding in the operators
    /// that bind more tightly than `min_precedence`.
    fn parseExpression(&mut self, min_precedence: u8) -> (node: Option<ExpressionEnum<'src>>)
        requires
            old(self).well_formed(),
        ensures
            expression_of(node) == parse_expression(
                old(self).source(),
                old(self).position(),
                min_precedence,
            ).value,
            final(self).follows(
                *old(self),
                parse_expression(old(self).source(), old(self).position(), min_precedence).consumed,
                parse_expression(old(self).source(), old(self).position(), min_precedence).errors,
            ),
        decreases remaining(old(self).source(), old(self).position()), 2int,
    {
        let ghost src = self.source();
        let ghost at = self.position();
        let ghost before = self.diagnostics();
        let ghost first = parse_prefix(src, at);
        let mut left = match self.parsePrefix() {
            Some(left) => left,
            None => {
                return None;
            },
        };
        let ghost start = left@;
        let ghost whole = parse_infix(src, at + first.consumed, min_precedence, start);
        while min_precedence < precedence(self.peekToken.kind)
            invariant
                self.well_formed(),
                self.source() == src,
                src == old(self).source(),
                at == old(self).position(),
                before == old(self).diagnostics(),
                first == parse_prefix(src, at),
                first.value == Some(start),
                whole == parse_infix(src, at + first.consumed, min_precedence, start),
                whole.value == parse_infix(src, self.position(), min_precedence, left@).value,
                at + first.consumed + whole.consumed == self.position() + parse_infix(
                    src,
                    self.position(),
                    min_precedence,
                    left@,
                ).consumed,
                before + first.errors + whole.errors == self.diagnostics() + parse_infix(
                    src,
                    self.position(),
                    min_precedence,
                    left@,
                ).errors,
                remaining(src, self.position()) <= remaining(src, at),
            decreases remaining(src, self.position()),
        {
            let ghost so_far = self.diagnostics();
            proof {
                lemma_token_advances(src, self.position() + step(src, self.position()));
            }
            self.nextToken();
            assert(self.diagnostics() =~= so_far);
            match self.parseInfixExpression(left) {
                Some(folded) => {
                    left = folded;
                },
                None => {
                    assert(before + first.errors + whole.errors =~= before + (first.errors
                        + whole.errors));
                    return None;
                },
            }
        }
        assert(before + first.errors + whole.errors =~= before + (first.errors + whole.errors));
        Some(left)
    }

    /// Parses a let statement, with the current token at `let`.
    fn parseLetStatement(&mut self) -> (node: Option<StatementEnum<'src>>)
        requires
            old(self).well_formed(),
        ensures
            statement_of(node) == parse_let_statement(
                old(self).source(),
                old(self).position(),
            ).value,
            final(self).follows(
                *old(self),
                parse_let_statement(old(self).source(), old(self).position()).consumed,
                parse_let_statement(old(self).source(), old(self).position()).errors,
            ),
    {
        let ghost before = self.diagnostics();
        let token = self.curToken;
        if !self.expectPeek(TokenKind::IDENT) {
            return None;
        }
        let name = Identifier { token: self.curToken, value: self.curToken.literal };
        if !self.expectPeek(TokenKind::ASSIGN) {
            return None;
        }
        self.nextToken();
        let ghost errors = parse_expression(self.source(), self.position(), LOWEST).errors;
        match self.parseExpression(LOWEST) {
            Some(value) => {
                let ghost closing = expected_text(
                    TokenKind::SEMICOLON,
                    peeked(self.source(), self.position()).kind,
                );
                if self.expectPeek(TokenKind::SEMICOLON) {
                    Some(StatementEnum::Let(LetStatement { token, name, value }))
                } else {
                    assert(before + errors + seq![closing] =~= before + errors.push(closing));
                    None
                }
            },
            None => None,
        }
    }

    /// Parses a return statement, with the current token at `return`.
    fn parseReturnStatement(&mut self) -> (node: Option<StatementEnum<'src>>)
        requires
            old(self).well_formed(),
        ensures
            statement_of(node) == parse_return_statement(
                old(self).source(),
                old(self).position(),
            ).value,
            final(self).follows(
                *old(self),
                parse_return_statement(old(self).source(), old(self).position()).consumed,
                parse_return_statement(old(self).source(), old(self).position()).errors,
            ),
    {
        let ghost before = self.diagnostics();
        let token = self.curToken;
        self.nextToken();
        let ghost errors = parse_expression(self.source(), self.position(), LOWEST).errors;
        match self.parseExpression(LOWEST) {
            Some(returnValue) => {
                let ghost closing = expected_text(
                    TokenKind::SEMICOLON,
                    peeked(self.source(), self.position()).kind,
                );
                if self.expectPeek(TokenKind::SEMICOLON) {
                    Some(StatementEnum::Return(ReturnStatement { token, returnValue }))
                } else {
                    assert(before + errors + seq![closing] =~= before + errors.push(closing));
                    None
                }
            },
            None => None,
        }
    }

    /// Parses an expression statement.
    fn parseExpressionStatement(&mut self) -> (node: StatementEnum<'src>)
        requires
            old(self).well_formed(),
        ensures
            Some(node@) == parse_expression_statement(
                old(self).source(),
                old(self).position(),
            ).value,
            final(self).follows(
                *old(self),
                parse_expression_statement(old(self).source(), old(self).position()).consumed,
                parse_expression_statement(old(self).source(), old(self).position()).errors,
            ),
    {
        let token = self.curToken;
        let expression = self.parseExpression(LOWEST);
        if self.peekToken.kind == TokenKind::SEMICOLON {
            self.nextToken();
        }
        StatementEnum::Expression(ExpressionStatement { token, expression })
    }

    /// Parses the statement at the current token.
    fn parseStatement(&mut self) -> (node: Option<StatementEnum<'src>>)
        requires
            old(self).well_formed(),
        ensures
            statement_of(node) == parse_statement(old(self).source(), old(self).position()).value,
            final(self).follows(
                *old(self),
                parse_statement(old(self).source(), old(self).position()).consumed,
                parse_statement(old(self).source(), old(self).position()).errors,
            ),
    {
        match self.curToken.kind {
            TokenKind::LET => self.parseLetStatement(),
            TokenKind::RETURN => self.parseReturnStatement(),
            _ => Some(self.parseExpressionStatement()),
        }
    }

    /// Parses statements up to the end of the text and returns the program
    /// made of those that could be built. What went wrong on the way is
    /// added to the diagnostics; the parser ends at the `EOF` token.
    pub fn ParseProgram(&mut self) -> (program: Program<'src>)
        requires
            old(self).well_formed(),
        ensures
            final(self).well_formed(),
            final(self).source() == old(self).source(),
            program@ == parse_program(old(self).source(), old(self).position()).statements,
            final(self).diagnostics() == old(self).diagnostics() + parse_program(
                old(self).source(),
                old(self).position(),
            ).errors,
            final(self).position() == old(self).position() + parse_program(
                old(self).source(),
                old(self).position(),
            ).consumed,
    {
        let ghost src = self.source();
        let ghost at = self.position();
        let ghost before = self.diagnostics();
        let ghost whole = parse_program(src, at);
        let mut statements: Vec<StatementEnum<'src>> = Vec::new();
        while self.curToken.kind != TokenKind::EOF
            invariant
                self.well_formed(),
                self.source() == src,
                whole.statements == statement_models(statements@) + parse_program(
                    src,
                    self.position(),
                ).statements,
                at + whole.consumed == self.position() + parse_program(
                    src,
                    self.position(),
                ).consumed,
                before + whole.errors == self.diagnostics() + parse_program(
                    src,
                    self.position(),
                ).errors,
            decreases remaining(src, self.position()),
        {
            proof {
                lemma_token_in_bounds(src, self.position());
            }
            match self.parseStatement() {
                Some(statement) => {
                    statements.push(statement);
                },
                None => {},
            }
            proof {
                lemma_token_in_bounds(src, self.position());
            }
            self.nextToken();
        }
        Program { statements }
    }
}

} // verus!
