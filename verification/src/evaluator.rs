//! The evaluator: walks a syntax tree and gives the value it stands for.
//! What goes wrong on the way is itself a value, an error object.

use vstd::prelude::*;

use crate::ast::{
    ExprModel, ExpressionEnum, NodeEnum, NodeModel, Program, StatementEnum, StmtModel,
};
use crate::environment::Environment;
use crate::lexer::Lexer;
use crate::object::{kind_text, ObjectEnum, ObjectModel, ReturnValue};
use crate::decimal::{decimal_value, integer_text, is_decimal, lemma_digits_round_trip};
use crate::parser::{lemma_integer_literal_parses, parse_source, Parser};
use crate::text::same_text;

verus! {

/// The message of the error for an integer result that 64 bits cannot hold.
pub open spec fn overflow_text() -> Seq<char> {
    "integer overflow"@
}

/// The message of the error for a division by zero.
pub open spec fn division_by_zero_text() -> Seq<char> {
    "division by zero"@
}

/// The message of the error for a prefix operator that is not defined for
/// its operand.
pub open spec fn unknown_prefix_text(operator: Seq<char>, right: ObjectModel) -> Seq<char> {
    "unknown operator: "@ + operator + kind_text(right)
}

/// The message of the error for an infix operator that is not defined for
/// operands of one and the same kind.
pub open spec fn unknown_infix_text(
    left: ObjectModel,
    operator: Seq<char>,
    right: ObjectModel,
) -> Seq<char> {
    "unknown operator: "@ + kind_text(left) + " "@ + operator + " "@ + kind_text(right)
}

/// The message of the error for an infix operator between operands of two
/// kinds.
pub open spec fn type_mismatch_text(
    left: ObjectModel,
    operator: Seq<char>,
    right: ObjectModel,
) -> Seq<char> {
    "type mismatch: "@ + kind_text(left) + " "@ + operator + " "@ + kind_text(right)
}

/// The message of the error for a name that nothing is bound to.
pub open spec fn not_found_text(name: Seq<char>) -> Seq<char> {
    "identifier not found: "@ + name
}

/// Whether two values are of one kind.
pub open spec fn same_kind(left: ObjectModel, right: ObjectModel) -> bool {
    match (left, right) {
        (ObjectModel::Integer(_), ObjectModel::Integer(_)) => true,
        (ObjectModel::Boolean(_), ObjectModel::Boolean(_)) => true,
        (ObjectModel::Error(_), ObjectModel::Error(_)) => true,
        (ObjectModel::ReturnValue(_), ObjectModel::ReturnValue(_)) => true,
        _ => false,
    }
}

/// The integer object for `value`, or the overflow error if 64 bits cannot
/// hold it.
pub open spec fn integer_or_overflow(value: int) -> ObjectModel {
    if i64::MIN <= value <= i64::MAX {
        ObjectModel::Integer(value as i64)
    } else {
        ObjectModel::Error(overflow_text())
    }
}

/// The quotient of `a` by `b`, rounded towards zero.
pub open spec fn truncated_quotient(a: int, b: int) -> int
    recommends
        b != 0,
{
    if a == 0 {
        0
    } else if a > 0 && b > 0 {
        a / b
    } else if a < 0 && b < 0 {
        (a * -1) / (b * -1)
    } else if a < 0 {
        ((a * -1) / b) * -1
    } else {
        (a / (b * -1)) * -1
    }
}

/// What a prefix operator makes of its operand. `!` negates a boolean and
/// gives `false` for any other value; `-` negates an integer; anything else
/// is an error.
pub open spec fn eval_prefix(operator: Seq<char>, right: ObjectModel) -> ObjectModel {
    if operator == "!"@ {
        match right {
            ObjectModel::Boolean(value) => ObjectModel::Boolean(!value),
            _ => ObjectModel::Boolean(false),
        }
    } else if operator == "-"@ {
        match right {
            ObjectModel::Integer(value) => integer_or_overflow(-value),
            _ => ObjectModel::Error(unknown_prefix_text(operator, right)),
        }
    } else {
        ObjectModel::Error(unknown_prefix_text(operator, right))
    }
}

/// What an infix operator makes of two integers: `+`, `-`, `*` and `/` give
/// an integer, or an error where the result does not fit or the divisor is
/// zero; `<`, `>`, `==` and `!=` give a boolean.
pub open spec fn eval_integer_infix(operator: Seq<char>, left: i64, right: i64) -> ObjectModel {
    if operator == "+"@ {
        integer_or_overflow(left + right)
    } else if operator == "-"@ {
        integer_or_overflow(left - right)
    } else if operator == "*"@ {
        integer_or_overflow(left * right)
    } else if operator == "/"@ {
        if right == 0 {
            ObjectModel::Error(division_by_zero_text())
        } else {
            integer_or_overflow(truncated_quotient(left as int, right as int))
        }
    } else if operator == "<"@ {
        ObjectModel::Boolean(left < right)
    } else if operator == ">"@ {
        ObjectModel::Boolean(left > right)
    } else if operator == "=="@ {
        ObjectModel::Boolean(left == right)
    } else if operator == "!="@ {
        ObjectModel::Boolean(left != right)
    } else {
        ObjectModel::Error(
            unknown_infix_text(ObjectModel::Integer(left), operator, ObjectModel::Integer(right)),
        )
    }
}

/// What an infix operator makes of two values. Between values of two kinds
/// every operator is an error; between booleans only `==` and `!=` are
/// defined.
pub open spec fn eval_infix(operator: Seq<char>, left: ObjectModel, right: ObjectModel)
    -> ObjectModel {
    match (left, right) {
        (ObjectModel::Integer(l), ObjectModel::Integer(r)) => eval_integer_infix(operator, l, r),
        (ObjectModel::Boolean(l), ObjectModel::Boolean(r)) => if operator == "=="@ {
            ObjectModel::Boolean(l == r)
        } else if operator == "!="@ {
            ObjectModel::Boolean(l != r)
        } else {
            ObjectModel::Error(unknown_infix_text(left, operator, right))
        },
        _ => if same_kind(left, right) {
            ObjectModel::Error(unknown_infix_text(left, operator, right))
        } else {
            ObjectModel::Error(type_mismatch_text(left, operator, right))
        },
    }
}

/// The value of an expression where `env` says what each name is bound to.
/// An operand that is an error is the value of the whole expression, and
/// what stands to its right is not evaluated.
pub open spec fn eval_expr(e: ExprModel, env: Map<Seq<char>, ObjectModel>) -> ObjectModel
    decreases e,
{
    match e {
        ExprModel::Identifier(id) => if env.contains_key(id.value) {
            env[id.value]
        } else {
            ObjectModel::Error(not_found_text(id.value))
        },
        ExprModel::IntegerLiteral { value, .. } => ObjectModel::Integer(value),
        ExprModel::Prefix { operator, right, .. } => {
            let r = eval_expr(*right, env);
            if r is Error {
                r
            } else {
                eval_prefix(operator, r)
            }
        },
        ExprModel::Infix { left, operator, right, .. } => {
            let l = eval_expr(*left, env);
            if l is Error {
                l
            } else {
                let r = eval_expr(*right, env);
                if r is Error {
                    r
                } else {
                    eval_infix(operator, l, r)
                }
            }
        },
    }
}

/// What evaluation leaves behind: a value, unless there is none, and the
/// bindings as they then are.
pub struct Outcome {
    pub value: Option<ObjectModel>,
    pub env: Map<Seq<char>, ObjectModel>,
}

/// What evaluating a statement gives. A let statement binds its name and
/// has no value; a return statement wraps its value for the way out; an
/// expression statement has the value of its expression. An error in the
/// statement's expression is the statement's value and nothing is bound.
pub open spec fn eval_stmt(s: StmtModel, env: Map<Seq<char>, ObjectModel>) -> Outcome {
    match s {
        StmtModel::Let { name, value, .. } => {
            let v = eval_expr(value, env);
            if v is Error {
                Outcome { value: Some(v), env }
            } else {
                Outcome { value: None, env: env.insert(name.value, v) }
            }
        },
        StmtModel::Return { value, .. } => {
            let v = eval_expr(value, env);
            if v is Error {
                Outcome { value: Some(v), env }
            } else {
                Outcome { value: Some(ObjectModel::ReturnValue(Box::new(v))), env }
            }
        },
        StmtModel::Expression { expression, .. } => match expression {
            Some(e) => Outcome { value: Some(eval_expr(e, env)), env },
            None => Outcome { value: None, env },
        },
    }
}

/// Whether a statement's value ends the evaluation of the statements it
/// stands among: an error does, and so does a value on its way out of a
/// `return`.
pub open spec fn interrupts(value: Option<ObjectModel>) -> bool {
    match value {
        Some(ObjectModel::Error(_)) => true,
        Some(ObjectModel::ReturnValue(_)) => true,
        _ => false,
    }
}

/// What evaluating statements in order gives, `last` being the value of the
/// statement before them: the value of the first statement that interrupts,
/// or else of the last statement.
pub open spec fn eval_statements(
    stmts: Seq<StmtModel>,
    env: Map<Seq<char>, ObjectModel>,
    last: Option<ObjectModel>,
) -> Outcome
    decreases stmts.len(),
{
    if stmts.len() == 0 {
        Outcome { value: last, env }
    } else {
        let first = eval_stmt(stmts[0], env);
        if interrupts(first.value) {
            first
        } else {
            eval_statements(stmts.drop_first(), first.env, first.value)
        }
    }
}

/// What evaluating a program gives: as for its statements in order, but a
/// value on its way out of a `return` has arrived and is unwrapped. An empty
/// program has no value.
pub open spec fn eval_program(stmts: Seq<StmtModel>, env: Map<Seq<char>, ObjectModel>)
    -> Outcome {
    let run = eval_statements(stmts, env, None);
    Outcome {
        value: match run.value {
            Some(ObjectModel::ReturnValue(value)) => Some(*value),
            other => other,
        },
        env: run.env,
    }
}

/// What evaluating any node gives.
pub open spec fn eval_node(n: NodeModel, env: Map<Seq<char>, ObjectModel>) -> Outcome {
    match n {
        NodeModel::Expression(e) => Outcome { value: Some(eval_expr(e, env)), env },
        NodeModel::Statement(s) => eval_stmt(s, env),
        NodeModel::Program(stmts) => eval_program(stmts, env),
    }
}

/// The value of the program that the text `src` parses to, evaluated where
/// no name is bound yet. The parser's diagnostics are not looked at.
pub open spec fn eval_source(src: Seq<char>) -> Option<ObjectModel> {
    eval_program(parse_source(src).statements, Map::empty()).value
}

/// A text that is nothing but a run of digits, denoting a number that 64
/// bits can hold, evaluates to the integer object with that number.
pub proof fn lemma_integer_literal_evaluates(text: Seq<char>)
    requires
        is_decimal(text),
        decimal_value(text) <= i64::MAX,
    ensures
        eval_source(text) == Some(ObjectModel::Integer(decimal_value(text) as i64)),
{
    lemma_integer_literal_parses(text);
    let stmts = parse_source(text).statements;
    let value = ObjectModel::Integer(decimal_value(text) as i64);
    let env = Map::<Seq<char>, ObjectModel>::empty();
    assert(eval_statements(stmts.drop_first(), env, Some(value)).value == Some(value));
}

/// Every integer that is not negative is the value of the program that
/// consists of the integer written in decimal.
pub proof fn lemma_written_integer_evaluates(value: i64)
    requires
        value >= 0,
    ensures
        eval_source(integer_text(value as int)) == Some(ObjectModel::Integer(value)),
{
    lemma_digits_round_trip(value as nat);
    lemma_integer_literal_evaluates(integer_text(value as int));
}

/// The value that an object stands for, if there is an object.
pub open spec fn value_of(object: Option<ObjectEnum>) -> Option<ObjectModel> {
    match object {
        Some(o) => Some(o@),
        None => None,
    }
}

/// The error object with the message `text`.
fn error_from(text: &str) -> (object: ObjectEnum)
    ensures
        object@ == ObjectModel::Error(text@),
{
    ObjectEnum::error(String::from_str(text))
}

/// The error object for an operator between two operands, behind `lead`.
fn infix_error(lead: &str, left: &ObjectEnum, operator: &str, right: &ObjectEnum) -> (object:
    ObjectEnum)
    ensures
        object@ == ObjectModel::Error(
            lead@ + kind_text(left@) + " "@ + operator@ + " "@ + kind_text(right@),
        ),
{
    let mut message = String::from_str(lead);
    message.append(left.Type());
    message.append(" ");
    message.append(operator);
    message.append(" ");
    message.append(right.Type());
    ObjectEnum::error(message)
}

/// The error object for a prefix operator that is not defined for `right`.
fn prefix_error(operator: &str, right: &ObjectEnum) -> (object: ObjectEnum)
    ensures
        object@ == ObjectModel::Error(unknown_prefix_text(operator@, right@)),
{
    let mut message = String::from_str("unknown operator: ");
    message.append(operator);
    message.append(right.Type());
    ObjectEnum::error(message)
}

/// The integer object for the result of a checked operation.
fn integer_or_error(result: Option<i64>) -> (object: ObjectEnum)
    ensures
        object@ == match result {
            Some(value) => ObjectModel::Integer(value),
            None => ObjectModel::Error(overflow_text()),
        },
{
    match result {
        Some(value) => ObjectEnum::integer(value),
        None => error_from("integer overflow"),
    }
}

/// Applies a prefix operator to its operand.
pub fn evalPrefixExpression(operator: &str, right: ObjectEnum) -> (object: ObjectEnum)
    ensures
        object@ == eval_prefix(operator@, right@),
{
    if same_text(operator, "!") {
        match right {
            ObjectEnum::Boolean(b) => ObjectEnum::boolean(!b.value),
            _ => ObjectEnum::boolean(false),
        }
    } else if same_text(operator, "-") {
        match &right {
            ObjectEnum::Integer(i) => integer_or_error(0i64.checked_sub(i.value)),
            _ => prefix_error(operator, &right),
        }
    } else {
        prefix_error(operator, &right)
    }
}

/// Applies an infix operator to two integers.
pub fn evalIntegerInfixExpression(operator: &str, left: i64, right: i64) -> (object: ObjectEnum)
    ensures
        object@ == eval_integer_infix(operator@, left, right),
{
    if same_text(operator, "+") {
        integer_or_error(left.checked_add(right))
    } else if same_text(operator, "-") {
        integer_or_error(left.checked_sub(right))
    } else if same_text(operator, "*") {
        integer_or_error(left.checked_mul(right))
    } else if same_text(operator, "/") {
        if right == 0 {
            error_from("division by zero")
        } else {
            integer_or_error(left.checked_div(right))
        }
    } else if same_text(operator, "<") {
        ObjectEnum::boolean(left < right)
    } else if same_text(operator, ">") {
        ObjectEnum::boolean(left > right)
    } else if same_text(operator, "==") {
        ObjectEnum::boolean(left == right)
    } else if same_text(operator, "!=") {
        ObjectEnum::boolean(left != right)
    } else {
        infix_error(
            "unknown operator: ",
            &ObjectEnum::integer(left),
            operator,
            &ObjectEnum::integer(right),
        )
    }
}

/// Applies an infix operator to two values.
pub fn evalInfixExpression(operator: &str, left: ObjectEnum, right: ObjectEnum) -> (object:
    ObjectEnum)
    ensures
        object@ == eval_infix(operator@, left@, right@),
{
    match (&left, &right) {
        (ObjectEnum::Integer(l), ObjectEnum::Integer(r)) => evalIntegerInfixExpression(
            operator,
            l.value,
            r.value,
        ),
        (ObjectEnum::Boolean(l), ObjectEnum::Boolean(r)) => {
            if same_text(operator, "==") {
                ObjectEnum::boolean(l.value == r.value)
            } else if same_text(operator, "!=") {
                ObjectEnum::boolean(l.value != r.value)
            } else {
                infix_error("unknown operator: ", &left, operator, &right)
            }
        },
        (ObjectEnum::Error(_), ObjectEnum::Error(_)) => infix_error(
            "unknown operator: ",
            &left,
            operator,
            &right,
        ),
        (ObjectEnum::ReturnValue(_), ObjectEnum::ReturnValue(_)) => infix_error(
            "unknown operator: ",
            &left,
            operator,
            &right,
        ),
        _ => infix_error("type mismatch: ", &left, operator, &right),
    }
}

/// Evaluates an expression.
pub fn evalExpression(node: &ExpressionEnum, env: &Environment) -> (object: ObjectEnum)
    requires
        env.well_formed(),
    ensures
        object@ == eval_expr(node@, env@),
    decreases node,
{
    match node {
        ExpressionEnum::Identifier(e) => match env.Lookup(e.value) {
            Some(value) => value,
            None => {
                let mut message = String::from_str("identifier not found: ");
                message.append(e.value);
                ObjectEnum::error(message)
            },
        },
        ExpressionEnum::IntegerLiteral(e) => ObjectEnum::integer(e.value),
        ExpressionEnum::PrefixExpression(e) => {
            let right = evalExpression(&e.right, env);
            if right.is_error() {
                right
            } else {
                evalPrefixExpression(e.operator, right)
            }
        },
        ExpressionEnum::InfixExpression(e) => {
            let left = evalExpression(&e.left, env);
            if left.is_error() {
                return left;
            }
            let right = evalExpression(&e.right, env);
            if right.is_error() {
                return right;
            }
            evalInfixExpression(e.operator, left, right)
        },
    }
}

/// Evaluates a statement.
pub fn evalStatement(node: &StatementEnum, env: &mut Environment) -> (object: Option<ObjectEnum>)
    requires
        old(env).well_formed(),
    ensures
        final(env).well_formed(),
        value_of(object) == eval_stmt(node@, old(env)@).value,
        final(env)@ == eval_stmt(node@, old(env)@).env,
{
    match node {
        StatementEnum::Let(s) => {
            let value = evalExpression(&s.value, env);
            if value.is_error() {
                Some(value)
            } else {
                env.Bind(s.name.value, value);
                None
            }
        },
        StatementEnum::Return(s) => {
            let value = evalExpression(&s.returnValue, env);
            if value.is_error() {
                Some(value)
            } else {
                Some(ObjectEnum::ReturnValue(ReturnValue { value: Box::new(value) }))
            }
        },
        StatementEnum::Expression(s) => match &s.expression {
            Some(e) => Some(evalExpression(e, env)),
            None => None,
        },
    }
}

/// Evaluates the statements of a program in order.
pub fn evalProgram(program: &Program, env: &mut Environment) -> (object: Option<ObjectEnum>)
    requires
        old(env).well_formed(),
    ensures
        final(env).well_formed(),
        value_of(object) == eval_program(program@, old(env)@).value,
        final(env)@ == eval_program(program@, old(env)@).env,
{
    let ghost whole = eval_statements(program@, env@, None);
    let mut result: Option<ObjectEnum> = None;
    let mut i: usize = 0;
    assert(program@.skip(0) =~= program@);
    while i < program.statements.len()
        invariant
            env.well_formed(),
            whole == eval_statements(program@, old(env)@, None),
            i <= program.statements.len(),
            !interrupts(value_of(result)),
            whole == eval_statements(program@.skip(i as int), env@, value_of(result)),
        decreases program.statements.len() - i,
    {
        proof {
            assert(program@.skip(i as int).drop_first() =~= program@.skip(i + 1));
        }
        result = evalStatement(&program.statements[i], env);
        match result {
            Some(ObjectEnum::ReturnValue(r)) => {
                return Some(*r.value);
            },
            Some(ObjectEnum::Error(e)) => {
                return Some(ObjectEnum::Error(e));
            },
            _ => {},
        }
        i += 1;
    }
    result
}

/// Evaluates `node` with the bindings of `env`, and binds in `env` what the
/// node's let statements bind.
pub fn EvalIn(node: &NodeEnum, env: &mut Environment) -> (object: Option<ObjectEnum>)
    requires
        old(env).well_formed(),
    ensures
        final(env).well_formed(),
        value_of(object) == eval_node(node@, old(env)@).value,
        final(env)@ == eval_node(node@, old(env)@).env,
{
    match node {
        NodeEnum::Expression(e) => Some(evalExpression(e, env)),
        NodeEnum::Statement(s) => evalStatement(s, env),
        NodeEnum::Program(p) => evalProgram(p, env),
    }
}

/// Evaluates `node` where no name is bound yet.
pub fn Eval(node: NodeEnum) -> (object: Option<ObjectEnum>)
    ensures
        value_of(object) == eval_node(node@, Map::empty()).value,
{
    let mut env = Environment::New();
    EvalIn(&node, &mut env)
}

/// Parses `input` and evaluates the program, whatever the parser had to
/// say about it.
pub fn testEval(input: &str) -> (object: Option<ObjectEnum>)
    ensures
        value_of(object) == eval_source(input@),
{
    let l = Lexer::New(input);
    let mut p = Parser::New(l);
    let program = p.ParseProgram();
    Eval(program.into())
}

/// Whether `obj` is the integer `expected`.
pub fn testIntegerObject(obj: ObjectEnum, expected: i64) -> (same: bool)
    ensures
        same == (obj@ == ObjectModel::Integer(expected)),
{
    match obj {
        ObjectEnum::Integer(result) => result.value == expected,
        _ => false,
    }
}

} // verus!
