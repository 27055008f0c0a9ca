use vstd::prelude::*;
use crate::location::{HasLocation, Location};

verus! {

#[derive(Debug)]
pub struct Program {
    pub functions: Vec<SrcFunction>,
}

#[derive(Debug)]
pub struct SrcFunction {
    pub(crate) function: Function,
    pub(crate) location: Location,
}

impl HasLocation for SrcFunction {
    closed spec fn spec_location(&self) -> Location {
        self.location
    }

    fn location(&self) -> (location: &Location) {
        &self.location
    }
}

impl SrcFunction {
    pub closed spec fn spec_function(&self) -> Function {
        self.function
    }

    /// A function together with the place where it was declared.
    pub fn new(function: Function, location: &Location) -> (result: Self)
        ensures
            result.spec_function() == function,
            result.spec_location() == *location,
    {
        Self { function, location: *location }
    }
}

#[derive(Debug)]
pub struct Function {
    pub name: String,
    pub args: Vec<(String, Type)>,
    pub return_type: Option<Type>,
    pub statements: Vec<SrcStatement>,
}

#[derive(Debug)]
pub struct SrcStatement {
    pub(crate) statement: Statement,
    pub(crate) location: Location,
}

impl HasLocation for SrcStatement {
    closed spec fn spec_location(&self) -> Location {
        self.location
    }

    fn location(&self) -> (location: &Location) {
        &self.location
    }
}

impl SrcStatement {
    pub closed spec fn spec_statement(&self) -> Statement {
        self.statement
    }

    /// A statement together with the place where it was written.
    pub fn new(statement: Statement, location: &Location) -> (result: Self)
        ensures
            result.spec_statement() == statement,
            result.spec_location() == *location,
    {
        Self { statement, location: *location }
    }
}

#[derive(Debug)]
pub enum Statement {
    Return(Option<SrcExpression>),
    Declaration { var_type: Type, name: String, value: Option<SrcExpression> },
    Expr(SrcExpression),
}

#[derive(Debug)]
pub struct SrcExpression {
    pub(crate) expr: Expression,
    pub(crate) location: Location,
}

impl HasLocation for SrcExpression {
    closed spec fn spec_location(&self) -> Location {
        self.location
    }

    fn location(&self) -> (location: &Location) {
        &self.location
    }
}

impl SrcExpression {
    pub closed spec fn spec_expr(&self) -> Expression {
        self.expr
    }

    /// An expression together with the place where it was written.
    pub fn new(expr: Expression, location: &Location) -> (result: Self)
        ensures
            result.spec_expr() == expr,
            result.spec_location() == *location,
    {
        Self { expr, location: *location }
    }
}

#[derive(Debug)]
pub enum Expression {
    Block(Vec<SrcStatement>, Option<Box<SrcExpression>>),
    Binary { op: BinaryOp, left: Box<SrcExpression>, right: Box<SrcExpression> },
    Unary { op: UnaryOp, expr: Box<SrcExpression> },
    Literal(Literal),
    Variable(String),
    Ternary {
        condition: Box<SrcExpression>,
        true_expr: Box<SrcExpression>,
        false_expr: Box<SrcExpression>,
    },
    FunctionCall { function: String, args: Vec<SrcExpression> },
}

#[derive(Debug, Clone, Copy, PartialEq, Eq, Structural)]
pub enum BinaryOp {
    Add,
    Sub,
    Mul,
    Div,
    Mod,
    And,
    Or,
    Xor,
    LogicalAnd,
    LogicalOr,
    Shl,
    Shr,
    Equals,
    NotEquals,
    Less,
    LessEquals,
    Greater,
    GreaterEquals,
    Assign,
    AddAssign,
    SubAssign,
    MulAssign,
    DivAssign,
    ModAssign,
    AndAssign,
    OrAssign,
    XorAssign,
    ShlAssign,
    ShrAssign,
}

/// Operator tokens of the source language.
#[derive(Debug, Clone, Copy, PartialEq, Eq, Structural, Hash)]
pub enum StaticToken {
    Plus,
    Minus,
    Star,
    Slash,
    Percent,
    Ampersand,
    Pipe,
    Caret,
    ShiftLeft,
    ShiftRight,
    Assign,
    AddAssign,
    SubAssign,
    MulAssign,
    DivAssign,
    ModAssign,
    AndAssign,
    OrAssign,
    XorAssign,
    ShiftLeftAssign,
    ShiftRightAssign,
}

/// The assignment operator that an assignment token stands for.
pub open spec fn spec_assign_op(token: StaticToken) -> Option<BinaryOp> {
    match token {
        StaticToken::Assign => Some(BinaryOp::Assign),
        StaticToken::AddAssign => Some(BinaryOp::AddAssign),
        StaticToken::SubAssign => Some(BinaryOp::SubAssign),
        StaticToken::MulAssign => Some(BinaryOp::MulAssign),
        StaticToken::DivAssign => Some(BinaryOp::DivAssign),
        StaticToken::ModAssign => Some(BinaryOp::ModAssign),
        StaticToken::AndAssign => Some(BinaryOp::AndAssign),
        StaticToken::OrAssign => Some(BinaryOp::OrAssign),
        StaticToken::XorAssign => Some(BinaryOp::XorAssign),
        StaticToken::ShiftLeftAssign => Some(BinaryOp::ShlAssign),
        StaticToken::ShiftRightAssign => Some(BinaryOp::ShrAssign),
        _ => None,
    }
}

/// Looks an assignment token up in the table of assignment operators; `None` for
/// tokens that are not assignments.
pub fn assign_op(token: &StaticToken) -> (op: Option<BinaryOp>)
    ensures
        op == spec_assign_op(*token),
{
    match token {
        StaticToken::Assign => Some(BinaryOp::Assign),
        StaticToken::AddAssign => Some(BinaryOp::AddAssign),
        StaticToken::SubAssign => Some(BinaryOp::SubAssign),
        StaticToken::MulAssign => Some(BinaryOp::MulAssign),
        StaticToken::DivAssign => Some(BinaryOp::DivAssign),
        StaticToken::ModAssign => Some(BinaryOp::ModAssign),
        StaticToken::AndAssign => Some(BinaryOp::AndAssign),
        StaticToken::OrAssign => Some(BinaryOp::OrAssign),
        StaticToken::XorAssign => Some(BinaryOp::XorAssign),
        StaticToken::ShiftLeftAssign => Some(BinaryOp::ShlAssign),
        StaticToken::ShiftRightAssign => Some(BinaryOp::ShrAssign),
        _ => None,
    }
}

#[derive(Debug, Clone, Copy, PartialEq, Eq, Structural)]
pub enum UnaryOp {
    Positive,
    Negate,
    Not,
    LogicalNot,
}

#[derive(Debug)]
pub enum Literal {
    Int(i32),
    Long(i64),
    String(String),
}

impl Literal {
    /// The type of a literal: `Int` for int literals, `Long` for long literals and
    /// `String` for string literals.
    pub fn get_type(&self) -> (ty: Type)
        ensures
            ty == match self {
                Literal::Int(_) => Type::Int,
                Literal::Long(_) => Type::Long,
                Literal::String(_) => Type::String,
            },
    {
        match self {
            Literal::Int(_) => Type::Int,
            Literal::Long(_) => Type::Long,
            Literal::String(_) => Type::String,
        }
    }
}

#[derive(Debug, Clone, Copy, PartialEq, Eq, Structural)]
pub enum Type {
    Unit,
    Bool,
    Int,
    Long,
    String,
}

impl Type {
    /// The number of bytes a value of the type occupies.
    pub open spec fn spec_size(&self) -> nat {
        match self {
            Type::Unit => 0,
            Type::Bool => 1,
            Type::Int => 4,
            Type::Long => 8,
            Type::String => 8,
        }
    }

    /// The number of bytes a value of the type occupies: nothing for unit, one byte for
    /// bool, four for int and eight for long and string (a pointer).
    pub fn size(&self) -> (size: usize)
        ensures
            size == self.spec_size(),
    {
        match self {
            Type::Unit => 0,
            Type::Bool => 1,
            Type::Int => 4,
            Type::Long => 8,
            Type::String => 8,
        }
    }

    /// Whether the type is one of the integer types `Int` and `Long`.
    pub fn is_integer(&self) -> (result: bool)
        ensures
            result == (*self == Type::Int || *self == Type::Long),
    {
        match self {
            Type::Int | Type::Long => true,
            _ => false,
        }
    }
}


fn clone_string(s: &String) -> (r: String)
    ensures
        r == *s,
{
    s.clone()
}

impl Clone for Literal {
    fn clone(&self) -> (r: Self)
        ensures
            r == *self,
    {
        match self {
            Literal::Int(v) => Literal::Int(*v),
            Literal::Long(v) => Literal::Long(*v),
            Literal::String(s) => Literal::String(clone_string(s)),
        }
    }
}

/// Whether two expressions are copies of each other: the same shape, operators, literals,
/// names and locations, with the statement and argument lists copied element by element.
spec fn same_expression(a: SrcExpression, b: SrcExpression) -> bool
    decreases a, 0nat,
{
    a.location == b.location && match (a.expr, b.expr) {
        (Expression::Block(s1, l1), Expression::Block(s2, l2)) => {
            &&& s1@.len() == s2@.len()
            &&& same_statements(s1@, s2@, s1@.len())
            &&& match (l1, l2) {
                (Some(x), Some(y)) => same_expression(*x, *y),
                (None, None) => true,
                _ => false,
            }
        },
        (
            Expression::Binary { op: o1, left: x1, right: y1 },
            Expression::Binary { op: o2, left: x2, right: y2 },
        ) => o1 == o2 && same_expression(*x1, *x2) && same_expression(*y1, *y2),
        (Expression::Unary { op: o1, expr: x1 }, Expression::Unary { op: o2, expr: x2 }) => o1 == o2
            && same_expression(*x1, *x2),
        (Expression::Literal(x), Expression::Literal(y)) => x == y,
        (Expression::Variable(x), Expression::Variable(y)) => x == y,
        (
            Expression::Ternary { condition: c1, true_expr: t1, false_expr: f1 },
            Expression::Ternary { condition: c2, true_expr: t2, false_expr: f2 },
        ) => same_expression(*c1, *c2) && same_expression(*t1, *t2) && same_expression(*f1, *f2),
        (
            Expression::FunctionCall { function: n1, args: a1 },
            Expression::FunctionCall { function: n2, args: a2 },
        ) => n1 == n2 && a1@.len() == a2@.len() && same_expression_list(a1@, a2@, a1@.len()),
        _ => false,
    }
}

/// Whether the first `n` expressions of two lists are copies of each other.
spec fn same_expression_list(a: Seq<SrcExpression>, b: Seq<SrcExpression>, n: nat) -> bool
    decreases a, n,
{
    if n == 0 || n > a.len() {
        true
    } else {
        same_expression_list(a, b, (n - 1) as nat) && same_expression(a[n - 1], b[n - 1])
    }
}

/// Whether an optional expression is a copy of another.
spec fn same_opt_expression(a: Option<SrcExpression>, b: Option<SrcExpression>) -> bool
    decreases a, 1nat,
{
    match (a, b) {
        (Some(x), Some(y)) => same_expression(x, y),
        (None, None) => true,
        _ => false,
    }
}

/// Whether two statements are copies of each other.
spec fn same_statement(a: SrcStatement, b: SrcStatement) -> bool
    decreases a, 0nat,
{
    a.location == b.location && match (a.statement, b.statement) {
        (Statement::Return(x), Statement::Return(y)) => same_opt_expression(x, y),
        (
            Statement::Declaration { var_type: t1, name: n1, value: v1 },
            Statement::Declaration { var_type: t2, name: n2, value: v2 },
        ) => t1 == t2 && n1 == n2 && same_opt_expression(v1, v2),
        (Statement::Expr(x), Statement::Expr(y)) => same_expression(x, y),
        _ => false,
    }
}

/// Whether the first `n` statements of two lists are copies of each other.
spec fn same_statements(a: Seq<SrcStatement>, b: Seq<SrcStatement>, n: nat) -> bool
    decreases a, n,
{
    if n == 0 || n > a.len() {
        true
    } else {
        same_statements(a, b, (n - 1) as nat) && same_statement(a[n - 1], b[n - 1])
    }
}

proof fn lemma_same_statements_agree(a: Seq<SrcStatement>, a2: Seq<SrcStatement>, b: Seq<SrcStatement>, n: nat)
    requires
        n <= a.len(),
        n <= a2.len(),
        forall|k: int| 0 <= k < n ==> a[k] == a2[k],
    ensures
        same_statements(a, b, n) == same_statements(a2, b, n),
    decreases n,
{
    if n > 0 {
        lemma_same_statements_agree(a, a2, b, (n - 1) as nat);
    }
}

proof fn lemma_same_statements_prefix(before: Seq<SrcStatement>, after: Seq<SrcStatement>, b: Seq<SrcStatement>, i: nat)
    requires
        before.len() == i,
        after.len() == i + 1,
        after.subrange(0, i as int) == before,
        same_statements(before, b, i),
        same_statement(after[i as int], b[i as int]),
    ensures
        same_statements(after, b, i + 1),
{
    lemma_same_statements_agree(before, after, b, i);
}

proof fn lemma_same_expression_list_agree(a: Seq<SrcExpression>, a2: Seq<SrcExpression>, b: Seq<SrcExpression>, n: nat)
    requires
        n <= a.len(),
        n <= a2.len(),
        forall|k: int| 0 <= k < n ==> a[k] == a2[k],
    ensures
        same_expression_list(a, b, n) == same_expression_list(a2, b, n),
    decreases n,
{
    if n > 0 {
        lemma_same_expression_list_agree(a, a2, b, (n - 1) as nat);
    }
}

proof fn lemma_same_expression_list_prefix(before: Seq<SrcExpression>, after: Seq<SrcExpression>, b: Seq<SrcExpression>, i: nat)
    requires
        before.len() == i,
        after.len() == i + 1,
        after.subrange(0, i as int) == before,
        same_expression_list(before, b, i),
        same_expression(after[i as int], b[i as int]),
    ensures
        same_expression_list(after, b, i + 1),
{
    lemma_same_expression_list_agree(before, after, b, i);
}

fn clone_statements(v: &Vec<SrcStatement>) -> (r: Vec<SrcStatement>)
    ensures
        r@.len() == v@.len(),
        same_statements(r@, v@, r@.len()),
    decreases v@,
{
    let mut r: Vec<SrcStatement> = Vec::new();
    let mut i: usize = 0;
    while i < v.len()
        invariant
            i <= v@.len(),
            r@.len() == i,
            same_statements(r@, v@, i as nat),
        decreases v@.len() - i,
    {
        let c = clone_statement(&v[i]);
        let ghost before = r@;
        r.push(c);
        proof {
            assert(r@.subrange(0, i as int) =~= before);
            lemma_same_statements_prefix(before, r@, v@, i as nat);
        }
        i += 1;
    }
    r
}

fn clone_expressions(v: &Vec<SrcExpression>) -> (r: Vec<SrcExpression>)
    ensures
        r@.len() == v@.len(),
        same_expression_list(r@, v@, r@.len()),
    decreases v@,
{
    let mut r: Vec<SrcExpression> = Vec::new();
    let mut i: usize = 0;
    while i < v.len()
        invariant
            i <= v@.len(),
            r@.len() == i,
            same_expression_list(r@, v@, i as nat),
        decreases v@.len() - i,
    {
        let c = clone_expression(&v[i]);
        let ghost before = r@;
        r.push(c);
        proof {
            assert(r@.subrange(0, i as int) =~= before);
            lemma_same_expression_list_prefix(before, r@, v@, i as nat);
        }
        i += 1;
    }
    r
}

fn clone_opt_expression(e: &Option<SrcExpression>) -> (r: Option<SrcExpression>)
    ensures
        same_opt_expression(r, *e),
    decreases *e,
{
    match e {
        Some(x) => Some(clone_expression(x)),
        None => None,
    }
}

fn clone_statement(s: &SrcStatement) -> (r: SrcStatement)
    ensures
        same_statement(r, *s),
    decreases *s,
{
    let statement = match &s.statement {
        Statement::Return(value) => Statement::Return(clone_opt_expression(value)),
        Statement::Declaration { var_type, name, value } => Statement::Declaration {
            var_type: *var_type,
            name: clone_string(name),
            value: clone_opt_expression(value),
        },
        Statement::Expr(e) => Statement::Expr(clone_expression(e)),
    };
    SrcStatement { statement, location: s.location }
}

fn clone_expression(e: &SrcExpression) -> (r: SrcExpression)
    ensures
        same_expression(r, *e),
    decreases *e,
{
    let expr = match &e.expr {
        Expression::Block(statements, last) => Expression::Block(
            clone_statements(statements),
            match last {
                Some(x) => Some(Box::new(clone_expression(x))),
                None => None,
            },
        ),
        Expression::Binary { op, left, right } => Expression::Binary {
            op: *op,
            left: Box::new(clone_expression(left)),
            right: Box::new(clone_expression(right)),
        },
        Expression::Unary { op, expr } => Expression::Unary {
            op: *op,
            expr: Box::new(clone_expression(expr)),
        },
        Expression::Literal(lit) => Expression::Literal(lit.clone()),
        Expression::Variable(name) => Expression::Variable(clone_string(name)),
        Expression::Ternary { condition, true_expr, false_expr } => Expression::Ternary {
            condition: Box::new(clone_expression(condition)),
            true_expr: Box::new(clone_expression(true_expr)),
            false_expr: Box::new(clone_expression(false_expr)),
        },
        Expression::FunctionCall { function, args } => Expression::FunctionCall {
            function: clone_string(function),
            args: clone_expressions(args),
        },
    };
    SrcExpression { expr, location: e.location }
}

impl Clone for SrcStatement {
    fn clone(&self) -> (r: Self) {
        clone_statement(self)
    }
}

impl Clone for Statement {
    fn clone(&self) -> (r: Self) {
        match self {
            Statement::Return(value) => Statement::Return(clone_opt_expression(value)),
            Statement::Declaration { var_type, name, value } => Statement::Declaration {
                var_type: *var_type,
                name: clone_string(name),
                value: clone_opt_expression(value),
            },
            Statement::Expr(e) => Statement::Expr(clone_expression(e)),
        }
    }
}

impl Clone for SrcExpression {
    fn clone(&self) -> (r: Self) {
        clone_expression(self)
    }
}

impl Clone for Function {
    fn clone(&self) -> (r: Self) {
        let mut args: Vec<(String, Type)> = Vec::new();
        let mut i: usize = 0;
        while i < self.args.len()
            invariant
                i <= self.args@.len(),
                args@.len() == i,
            decreases self.args@.len() - i,
        {
            let (name, ty) = &self.args[i];
            args.push((clone_string(name), *ty));
            i += 1;
        }
        Function {
            name: clone_string(&self.name),
            args,
            return_type: self.return_type,
            statements: clone_statements(&self.statements),
        }
    }
}

impl Clone for SrcFunction {
    fn clone(&self) -> (r: Self) {
        SrcFunction { function: self.function.clone(), location: self.location }
    }
}

/// Different assignment tokens stand for different assignment operators.
pub proof fn law_assign_op_injective(a: StaticToken, b: StaticToken)
    requires
        spec_assign_op(a) is Some,
        spec_assign_op(a) == spec_assign_op(b),
    ensures
        a == b,
{
}

/// The integer types are those that occupy four or eight bytes and are not strings.
pub proof fn law_integer_type_sizes(t: Type)
    ensures
        (t == Type::Int || t == Type::Long) <==> ((t.spec_size() == 4 || t.spec_size() == 8) && t
            != Type::String),
{
}

} // verus!
