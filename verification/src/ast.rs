//! The syntax tree: a closed set of node kinds, each of which can name the
//! token it started from and print itself back in a fully parenthesized form.

use vstd::prelude::*;
use vstd::std_specs::convert::FromSpecImpl;

use crate::token::{Token, TokenModel};

verus! {

/// An identifier in contracts.
pub struct IdentifierModel {
    pub token: TokenModel,
    pub value: Seq<char>,
}

/// An expression in contracts.
pub enum ExprModel {
    Identifier(IdentifierModel),
    IntegerLiteral { token: TokenModel, value: i64 },
    Prefix { token: TokenModel, operator: Seq<char>, right: Box<ExprModel> },
    Infix { token: TokenModel, left: Box<ExprModel>, operator: Seq<char>, right: Box<ExprModel> },
}

/// A statement in contracts.
pub enum StmtModel {
    Let { token: TokenModel, name: IdentifierModel, value: ExprModel },
    Return { token: TokenModel, value: ExprModel },
    Expression { token: TokenModel, expression: Option<ExprModel> },
}

/// Any node in contracts. A program is the sequence of its statements.
pub enum NodeModel {
    Expression(ExprModel),
    Statement(StmtModel),
    Program(Seq<StmtModel>),
}

/// The token an expression started from.
pub open spec fn expr_token(e: ExprModel) -> TokenModel {
    match e {
        ExprModel::Identifier(id) => id.token,
        ExprModel::IntegerLiteral { token, .. } => token,
        ExprModel::Prefix { token, .. } => token,
        ExprModel::Infix { token, .. } => token,
    }
}

/// The token a statement started from.
pub open spec fn stmt_token(s: StmtModel) -> TokenModel {
    match s {
        StmtModel::Let { token, .. } => token,
        StmtModel::Return { token, .. } => token,
        StmtModel::Expression { token, .. } => token,
    }
}

/// The literal of a program's first token; empty for an empty program.
pub open spec fn program_token_text(stmts: Seq<StmtModel>) -> Seq<char> {
    if stmts.len() > 0 {
        stmt_token(stmts[0]).literal
    } else {
        Seq::empty()
    }
}

/// The literal of the token a node started from.
pub open spec fn node_token_text(n: NodeModel) -> Seq<char> {
    match n {
        NodeModel::Expression(e) => expr_token(e).literal,
        NodeModel::Statement(s) => stmt_token(s).literal,
        NodeModel::Program(stmts) => program_token_text(stmts),
    }
}

/// The printed form of an expression. Identifiers and integer literals print
/// as their token's literal; every prefix and infix expression is wrapped in
/// parentheses, so that the printed form shows how operands were grouped.
pub open spec fn render_expr(e: ExprModel) -> Seq<char>
    decreases e,
{
    match e {
        ExprModel::Identifier(id) => id.token.literal,
        ExprModel::IntegerLiteral { token, .. } => token.literal,
        ExprModel::Prefix { operator, right, .. } => "("@ + operator + render_expr(*right) + ")"@,
        ExprModel::Infix { left, operator, right, .. } => "("@ + render_expr(*left) + " "@
            + operator + " "@ + render_expr(*right) + ")"@,
    }
}

/// The printed form of a statement. An expression statement without an
/// expression prints as nothing.
pub open spec fn render_stmt(s: StmtModel) -> Seq<char> {
    match s {
        StmtModel::Let { name, value, .. } => "let "@ + name.token.literal + " = "@ + render_expr(
            value,
        ) + ";"@,
        StmtModel::Return { value, .. } => "return "@ + render_expr(value) + ";"@,
        StmtModel::Expression { expression, .. } => match expression {
            Some(e) => render_expr(e),
            None => Seq::empty(),
        },
    }
}

/// The printed form of a program: the printed forms of its statements, in
/// order, with nothing between them.
pub open spec fn render_program(stmts: Seq<StmtModel>) -> Seq<char>
    decreases stmts.len(),
{
    if stmts.len() == 0 {
        Seq::empty()
    } else {
        render_program(stmts.drop_last()) + render_stmt(stmts.last())
    }
}

/// The printed form of any node.
pub open spec fn render_node(n: NodeModel) -> Seq<char> {
    match n {
        NodeModel::Expression(e) => render_expr(e),
        NodeModel::Statement(s) => render_stmt(s),
        NodeModel::Program(stmts) => render_program(stmts),
    }
}

/// What every node of the tree offers.
pub trait Node<'src> {
    /// The literal of the token this node started from.
    spec fn token_text(&self) -> Seq<char>;

    /// The printed form of this node.
    spec fn rendering(&self) -> Seq<char>;

    /// Returns the literal of the token this node started from.
    fn TokenLiteral(&self) -> (literal: &'src str)
        ensures
            literal@ == self.token_text(),
    ;

    /// Returns the printed form of this node.
    fn String(&self) -> (text: String)
        ensures
            text@ == self.rendering(),
    ;
}

#[derive(Debug, PartialEq, Eq)]
pub struct Identifier<'src> {
    pub token: Token<'src>,
    pub value: &'src str,
}

#[derive(Debug, PartialEq, Eq)]
pub struct IntegerLiteral<'src> {
    pub token: Token<'src>,
    pub value: i64,
}

#[derive(Debug, PartialEq, Eq)]
pub struct PrefixExpression<'src> {
    pub token: Token<'src>,
    pub operator: &'src str,
    pub right: Box<ExpressionEnum<'src>>,
}

#[derive(Debug, PartialEq, Eq)]
pub struct InfixExpression<'src> {
    pub token: Token<'src>,
    pub left: Box<ExpressionEnum<'src>>,
    pub operator: &'src str,
    pub right: Box<ExpressionEnum<'src>>,
}

#[derive(Debug, PartialEq, Eq)]
pub enum ExpressionEnum<'src> {
    Identifier(Identifier<'src>),
    IntegerLiteral(IntegerLiteral<'src>),
    PrefixExpression(PrefixExpression<'src>),
    InfixExpression(InfixExpression<'src>),
}

#[derive(Debug, PartialEq, Eq)]
pub struct LetStatement<'src> {
    pub token: Token<'src>,
    pub name: Identifier<'src>,
    pub value: ExpressionEnum<'src>,
}

#[derive(Debug, PartialEq, Eq)]
pub struct ReturnStatement<'src> {
    pub token: Token<'src>,
    pub returnValue: ExpressionEnum<'src>,
}

#[derive(Debug, PartialEq, Eq)]
pub struct ExpressionStatement<'src> {
    pub token: Token<'src>,
    pub expression: Option<ExpressionEnum<'src>>,
}

#[derive(Debug, PartialEq, Eq)]
pub enum StatementEnum<'src> {
    Let(LetStatement<'src>),
    Return(ReturnStatement<'src>),
    Expression(ExpressionStatement<'src>),
}

#[derive(Debug, PartialEq, Eq)]
pub struct Program<'src> {
    pub statements: Vec<StatementEnum<'src>>,
}

#[derive(Debug, PartialEq, Eq)]
pub enum NodeEnum<'src> {
    Expression(ExpressionEnum<'src>),
    Statement(StatementEnum<'src>),
    Program(Program<'src>),
}

impl<'src> View for Identifier<'src> {
    type V = IdentifierModel;

    open spec fn view(&self) -> IdentifierModel {
        IdentifierModel { token: self.token@, value: self.value@ }
    }
}

impl<'src> View for IntegerLiteral<'src> {
    type V = ExprModel;

    open spec fn view(&self) -> ExprModel {
        ExprModel::IntegerLiteral { token: self.token@, value: self.value }
    }
}

impl<'src> ExpressionEnum<'src> {
    /// The expression that this tree stands for.
    pub open spec fn model(&self) -> ExprModel
        decreases self,
    {
        match self {
            ExpressionEnum::Identifier(e) => ExprModel::Identifier(e@),
            ExpressionEnum::IntegerLiteral(e) => e@,
            ExpressionEnum::PrefixExpression(e) => ExprModel::Prefix {
                token: e.token@,
                operator: e.operator@,
                right: Box::new(e.right.model()),
            },
            ExpressionEnum::InfixExpression(e) => ExprModel::Infix {
                token: e.token@,
                left: Box::new(e.left.model()),
                operator: e.operator@,
                right: Box::new(e.right.model()),
            },
        }
    }
}

impl<'src> View for ExpressionEnum<'src> {
    type V = ExprModel;

    open spec fn view(&self) -> ExprModel {
        self.model()
    }
}

impl<'src> View for PrefixExpression<'src> {
    type V = ExprModel;

    open spec fn view(&self) -> ExprModel {
        ExprModel::Prefix {
            token: self.token@,
            operator: self.operator@,
            right: Box::new(self.right@),
        }
    }
}

impl<'src> View for InfixExpression<'src> {
    type V = ExprModel;

    open spec fn view(&self) -> ExprModel {
        ExprModel::Infix {
            token: self.token@,
            left: Box::new(self.left@),
            operator: self.operator@,
            right: Box::new(self.right@),
        }
    }
}

impl<'src> View for LetStatement<'src> {
    type V = StmtModel;

    open spec fn view(&self) -> StmtModel {
        StmtModel::Let { token: self.token@, name: self.name@, value: self.value@ }
    }
}

impl<'src> View for ReturnStatement<'src> {
    type V = StmtModel;

    open spec fn view(&self) -> StmtModel {
        StmtModel::Return { token: self.token@, value: self.returnValue@ }
    }
}

impl<'src> View for ExpressionStatement<'src> {
    type V = StmtModel;

    open spec fn view(&self) -> StmtModel {
        StmtModel::Expression {
            token: self.token@,
            expression: match self.expression {
                Some(e) => Some(e@),
                None => None,
            },
        }
    }
}

impl<'src> View for StatementEnum<'src> {
    type V = StmtModel;

    open spec fn view(&self) -> StmtModel {
        match self {
            StatementEnum::Let(s) => s@,
            StatementEnum::Return(s) => s@,
            StatementEnum::Expression(s) => s@,
        }
    }
}

impl<'src> View for Program<'src> {
    type V = Seq<StmtModel>;

    open spec fn view(&self) -> Seq<StmtModel> {
        self.statements@.map_values(|s: StatementEnum<'src>| s@)
    }
}

impl<'src> View for NodeEnum<'src> {
    type V = NodeModel;

    open spec fn view(&self) -> NodeModel {
        match self {
            NodeEnum::Expression(e) => NodeModel::Expression(e@),
            NodeEnum::Statement(s) => NodeModel::Statement(s@),
            NodeEnum::Program(p) => NodeModel::Program(p@),
        }
    }
}

impl<'src> Node<'src> for Identifier<'src> {
    open spec fn token_text(&self) -> Seq<char> {
        self@.token.literal
    }

    open spec fn rendering(&self) -> Seq<char> {
        render_expr(ExprModel::Identifier(self@))
    }

    fn TokenLiteral(&self) -> (literal: &'src str) {
        self.token.literal
    }

    fn String(&self) -> (text: String) {
        String::from_str(self.token.literal)
    }
}

impl<'src> Node<'src> for IntegerLiteral<'src> {
    open spec fn token_text(&self) -> Seq<char> {
        expr_token(self@).literal
    }

    open spec fn rendering(&self) -> Seq<char> {
        render_expr(self@)
    }

    fn TokenLiteral(&self) -> (literal: &'src str) {
        self.token.literal
    }

    fn String(&self) -> (text: String) {
        String::from_str(self.TokenLiteral())
    }
}

impl<'src> Node<'src> for PrefixExpression<'src> {
    open spec fn token_text(&self) -> Seq<char> {
        expr_token(self@).literal
    }

    open spec fn rendering(&self) -> Seq<char> {
        render_expr(self@)
    }

    fn TokenLiteral(&self) -> (literal: &'src str) {
        self.token.literal
    }

    fn String(&self) -> (text: String)
        decreases self,
    {
        let right = self.right.String();
        let mut text = String::from_str("(");
        text.append(self.operator);
        text.append(right.as_str());
        text.append(")");
        text
    }
}

impl<'src> Node<'src> for InfixExpression<'src> {
    open spec fn token_text(&self) -> Seq<char> {
        expr_token(self@).literal
    }

    open spec fn rendering(&self) -> Seq<char> {
        render_expr(self@)
    }

    fn TokenLiteral(&self) -> (literal: &'src str) {
        self.token.literal
    }

    fn String(&self) -> (text: String)
        decreases self,
    {
        let left = self.left.String();
        let right = self.right.String();
        let mut text = String::from_str("(");
        text.append(left.as_str());
        text.append(" ");
        text.append(self.operator);
        text.append(" ");
        text.append(right.as_str());
        text.append(")");
        text
    }
}

impl<'src> Node<'src> for ExpressionEnum<'src> {
    open spec fn token_text(&self) -> Seq<char> {
        expr_token(self@).literal
    }

    open spec fn rendering(&self) -> Seq<char> {
        render_expr(self@)
    }

    fn TokenLiteral(&self) -> (literal: &'src str) {
        match self {
            Self::Identifier(e) => e.TokenLiteral(),
            Self::IntegerLiteral(e) => e.TokenLiteral(),
            Self::PrefixExpression(e) => e.TokenLiteral(),
            Self::InfixExpression(e) => e.TokenLiteral(),
        }
    }

    fn String(&self) -> (text: String)
        decreases self,
    {
        match self {
            Self::Identifier(e) => e.String(),
            Self::IntegerLiteral(e) => e.String(),
            Self::PrefixExpression(e) => e.String(),
            Self::InfixExpression(e) => e.String(),
        }
    }
}

impl<'src> Node<'src> for LetStatement<'src> {
    open spec fn token_text(&self) -> Seq<char> {
        stmt_token(self@).literal
    }

    open spec fn rendering(&self) -> Seq<char> {
        render_stmt(self@)
    }

    fn TokenLiteral(&self) -> (literal: &'src str) {
        self.token.literal
    }

    fn String(&self) -> (text: String) {
        let name = self.name.String();
        let value = self.value.String();
        let mut text = String::from_str("let ");
        text.append(name.as_str());
        text.append(" = ");
        text.append(value.as_str());
        text.append(";");
        text
    }
}

impl<'src> Node<'src> for ReturnStatement<'src> {
    open spec fn token_text(&self) -> Seq<char> {
        stmt_token(self@).literal
    }

    open spec fn rendering(&self) -> Seq<char> {
        render_stmt(self@)
    }

    fn TokenLiteral(&self) -> (literal: &'src str) {
        self.token.literal
    }

    fn String(&self) -> (text: String) {
        let value = self.returnValue.String();
        let mut text = String::from_str("return ");
        text.append(value.as_str());
        text.append(";");
        text
    }
}

impl<'src> Node<'src> for ExpressionStatement<'src> {
    open spec fn token_text(&self) -> Seq<char> {
        stmt_token(self@).literal
    }

    open spec fn rendering(&self) -> Seq<char> {
        render_stmt(self@)
    }

    fn TokenLiteral(&self) -> (literal: &'src str) {
        self.token.literal
    }

    fn String(&self) -> (text: String) {
        match &self.expression {
            Some(e) => e.String(),
            None => String::new(),
        }
    }
}

impl<'src> Node<'src> for StatementEnum<'src> {
    open spec fn token_text(&self) -> Seq<char> {
        stmt_token(self@).literal
    }

    open spec fn rendering(&self) -> Seq<char> {
        render_stmt(self@)
    }

    fn TokenLiteral(&self) -> (literal: &'src str) {
        match self {
            Self::Let(s) => s.TokenLiteral(),
            Self::Return(s) => s.TokenLiteral(),
            Self::Expression(s) => s.TokenLiteral(),
        }
    }

    fn String(&self) -> (text: String) {
        match self {
            Self::Let(s) => s.String(),
            Self::Return(s) => s.String(),
            Self::Expression(s) => s.String(),
        }
    }
}

impl<'src> Node<'src> for Program<'src> {
    open spec fn token_text(&self) -> Seq<char> {
        program_token_text(self@)
    }

    open spec fn rendering(&self) -> Seq<char> {
        render_program(self@)
    }

    fn TokenLiteral(&self) -> (literal: &'src str) {
        if self.statements.len() > 0 {
            self.statements[0].TokenLiteral()
        } else {
            proof {
                reveal_strlit("");
            }
            ""
        }
    }

    fn String(&self) -> (text: String) {
        let mut text = String::new();
        let mut i: usize = 0;
        while i < self.statements.len()
            invariant
                i <= self.statements.len(),
                text@ == render_program(self@.take(i as int)),
            decreases self.statements.len() - i,
        {
            let piece = self.statements[i].String();
            text.append(piece.as_str());
            proof {
                let next = self@.take(i + 1);
                assert(next.drop_last() =~= self@.take(i as int));
            }
            i += 1;
        }
        assert(self@.take(i as int) =~= self@);
        text
    }
}

impl<'src> Node<'src> for NodeEnum<'src> {
    open spec fn token_text(&self) -> Seq<char> {
        node_token_text(self@)
    }

    open spec fn rendering(&self) -> Seq<char> {
        render_node(self@)
    }

    fn TokenLiteral(&self) -> (literal: &'src str) {
        match self {
            Self::Expression(n) => n.TokenLiteral(),
            Self::Statement(n) => n.TokenLiteral(),
            Self::Program(n) => n.TokenLiteral(),
        }
    }

    fn String(&self) -> (text: String) {
        match self {
            Self::Expression(n) => n.String(),
            Self::Statement(n) => n.String(),
            Self::Program(n) => n.String(),
        }
    }
}

impl<'src> Clone for Identifier<'src> {
    fn clone(&self) -> (copy: Self)
        ensures
            copy@ == self@,
    {
        Identifier { token: self.token, value: self.value }
    }
}

impl<'src> Clone for IntegerLiteral<'src> {
    fn clone(&self) -> (copy: Self)
        ensures
            copy@ == self@,
    {
        IntegerLiteral { token: self.token, value: self.value }
    }
}

impl<'src> Clone for PrefixExpression<'src> {
    fn clone(&self) -> (copy: Self)
        ensures
            copy@ == self@,
        decreases self,
    {
        let right = (&*self.right).clone();
        PrefixExpression { token: self.token, operator: self.operator, right: Box::new(right) }
    }
}

impl<'src> Clone for InfixExpression<'src> {
    fn clone(&self) -> (copy: Self)
        ensures
            copy@ == self@,
        decreases self,
    {
        let left = (&*self.left).clone();
        let right = (&*self.right).clone();
        InfixExpression {
            token: self.token,
            left: Box::new(left),
            operator: self.operator,
            right: Box::new(right),
        }
    }
}

impl<'src> Clone for ExpressionEnum<'src> {
    fn clone(&self) -> (copy: Self)
        ensures
            copy@ == self@,
        decreases self,
    {
        match self {
            Self::Identifier(e) => Self::Identifier(e.clone()),
            Self::IntegerLiteral(e) => Self::IntegerLiteral(e.clone()),
            Self::PrefixExpression(e) => Self::PrefixExpression(e.clone()),
            Self::InfixExpression(e) => Self::InfixExpression(e.clone()),
        }
    }
}

impl<'src> Clone for LetStatement<'src> {
    fn clone(&self) -> (copy: Self)
        ensures
            copy@ == self@,
    {
        LetStatement { token: self.token, name: self.name.clone(), value: self.value.clone() }
    }
}

impl<'src> Clone for ReturnStatement<'src> {
    fn clone(&self) -> (copy: Self)
        ensures
            copy@ == self@,
    {
        ReturnStatement { token: self.token, returnValue: self.returnValue.clone() }
    }
}

impl<'src> Clone for ExpressionStatement<'src> {
    fn clone(&self) -> (copy: Self)
        ensures
            copy@ == self@,
    {
        let expression = match &self.expression {
            Some(e) => Some(e.clone()),
            None => None,
        };
        ExpressionStatement { token: self.token, expression }
    }
}

impl<'src> Clone for StatementEnum<'src> {
    fn clone(&self) -> (copy: Self)
        ensures
            copy@ == self@,
    {
        match self {
            Self::Let(s) => Self::Let(s.clone()),
            Self::Return(s) => Self::Return(s.clone()),
            Self::Expression(s) => Self::Expression(s.clone()),
        }
    }
}

impl<'src> Clone for Program<'src> {
    fn clone(&self) -> (copy: Self)
        ensures
            copy@ == self@,
    {
        let mut statements: Vec<StatementEnum<'src>> = Vec::new();
        let mut i: usize = 0;
        while i < self.statements.len()
            invariant
                i <= self.statements.len(),
                statements.len() == i,
                forall|k: int| 0 <= k < i ==> statements[k]@ == self.statements[k]@,
            decreases self.statements.len() - i,
        {
            statements.push(self.statements[i].clone());
            i += 1;
        }
        Program { statements }
    }
}

impl<'src> Clone for NodeEnum<'src> {
    fn clone(&self) -> (copy: Self)
        ensures
            copy@ == self@,
    {
        match self {
            Self::Expression(n) => Self::Expression(n.clone()),
            Self::Statement(n) => Self::Statement(n.clone()),
            Self::Program(n) => Self::Program(n.clone()),
        }
    }
}

impl<'src> From<Identifier<'src>> for ExpressionEnum<'src> {
    fn from(node: Identifier<'src>) -> (wrapped: Self) {
        ExpressionEnum::Identifier(node)
    }
}

impl<'src> FromSpecImpl<Identifier<'src>> for ExpressionEnum<'src> {
    open spec fn obeys_from_spec() -> bool {
        true
    }

    open spec fn from_spec(node: Identifier<'src>) -> Self {
        ExpressionEnum::Identifier(node)
    }
}

impl<'src> From<IntegerLiteral<'src>> for ExpressionEnum<'src> {
    fn from(node: IntegerLiteral<'src>) -> (wrapped: Self) {
        ExpressionEnum::IntegerLiteral(node)
    }
}

impl<'src> FromSpecImpl<IntegerLiteral<'src>> for ExpressionEnum<'src> {
    open spec fn obeys_from_spec() -> bool {
        true
    }

    open spec fn from_spec(node: IntegerLiteral<'src>) -> Self {
        ExpressionEnum::IntegerLiteral(node)
    }
}

impl<'src> From<PrefixExpression<'src>> for ExpressionEnum<'src> {
    fn from(node: PrefixExpression<'src>) -> (wrapped: Self) {
        ExpressionEnum::PrefixExpression(node)
    }
}

impl<'src> FromSpecImpl<PrefixExpression<'src>> for ExpressionEnum<'src> {
    open spec fn obeys_from_spec() -> bool {
        true
    }

    open spec fn from_spec(node: PrefixExpression<'src>) -> Self {
        ExpressionEnum::PrefixExpression(node)
    }
}

impl<'src> From<InfixExpression<'src>> for ExpressionEnum<'src> {
    fn from(node: InfixExpression<'src>) -> (wrapped: Self) {
        ExpressionEnum::InfixExpression(node)
    }
}

impl<'src> FromSpecImpl<InfixExpression<'src>> for ExpressionEnum<'src> {
    open spec fn obeys_from_spec() -> bool {
        true
    }

    open spec fn from_spec(node: InfixExpression<'src>) -> Self {
        ExpressionEnum::InfixExpression(node)
    }
}

impl<'src> From<LetStatement<'src>> for StatementEnum<'src> {
    fn from(node: LetStatement<'src>) -> (wrapped: Self) {
        StatementEnum::Let(node)
    }
}

impl<'src> FromSpecImpl<LetStatement<'src>> for StatementEnum<'src> {
    open spec fn obeys_from_spec() -> bool {
        true
    }

    open spec fn from_spec(node: LetStatement<'src>) -> Self {
        StatementEnum::Let(node)
    }
}

impl<'src> From<ReturnStatement<'src>> for StatementEnum<'src> {
    fn from(node: ReturnStatement<'src>) -> (wrapped: Self) {
        StatementEnum::Return(node)
    }
}

impl<'src> FromSpecImpl<ReturnStatement<'src>> for StatementEnum<'src> {
    open spec fn obeys_from_spec() -> bool {
        true
    }

    open spec fn from_spec(node: ReturnStatement<'src>) -> Self {
        StatementEnum::Return(node)
    }
}

impl<'src> From<ExpressionStatement<'src>> for StatementEnum<'src> {
    fn from(node: ExpressionStatement<'src>) -> (wrapped: Self) {
        StatementEnum::Expression(node)
    }
}

impl<'src> FromSpecImpl<ExpressionStatement<'src>> for StatementEnum<'src> {
    open spec fn obeys_from_spec() -> bool {
        true
    }

    open spec fn from_spec(node: ExpressionStatement<'src>) -> Self {
        StatementEnum::Expression(node)
    }
}

impl<'src> From<ExpressionEnum<'src>> for NodeEnum<'src> {
    fn from(node: ExpressionEnum<'src>) -> (wrapped: Self) {
        NodeEnum::Expression(node)
    }
}

impl<'src> FromSpecImpl<ExpressionEnum<'src>> for NodeEnum<'src> {
    open spec fn obeys_from_spec() -> bool {
        true
    }

    open spec fn from_spec(node: ExpressionEnum<'src>) -> Self {
        NodeEnum::Expression(node)
    }
}

impl<'src> From<StatementEnum<'src>> for NodeEnum<'src> {
    fn from(node: StatementEnum<'src>) -> (wrapped: Self) {
        NodeEnum::Statement(node)
    }
}

impl<'src> FromSpecImpl<StatementEnum<'src>> for NodeEnum<'src> {
    open spec fn obeys_from_spec() -> bool {
        true
    }

    open spec fn from_spec(node: StatementEnum<'src>) -> Self {
        NodeEnum::Statement(node)
    }
}

impl<'src> From<Program<'src>> for NodeEnum<'src> {
    fn from(node: Program<'src>) -> (wrapped: Self) {
        NodeEnum::Program(node)
    }
}

impl<'src> FromSpecImpl<Program<'src>> for NodeEnum<'src> {
    open spec fn obeys_from_spec() -> bool {
        true
    }

    open spec fn from_spec(node: Program<'src>) -> Self {
        NodeEnum::Program(node)
    }
}

} // verus!
