use vstd::prelude::*;
use crate::location::Location;

verus! {

/// A value together with the place in the source where it was written.
#[derive(Debug)]
pub struct Located<T> {
    pub value: T,
    pub location: Location,
}

/// Path of a module, outermost first.
#[derive(Debug)]
pub struct ModuleId {
    pub path: Vec<String>,
}

/// An item (function, type, enum variant) named inside a module.
#[derive(Debug)]
pub struct ItemId {
    pub module_id: ModuleId,
    pub item_name: String,
}

/// A name as written at a use site: either local to the current module or qualified.
#[derive(Debug)]
pub struct ScopeId {
    pub is_module_local: bool,
    pub item_id: ItemId,
}

/// A name with explicit generic arguments.
#[derive(Debug)]
pub struct ParsedGenericId {
    pub id: ScopeId,
    pub generic_args: Vec<ParsedType>,
}

/// Types as written in the source.
#[derive(Debug)]
pub enum ParsedTypeValue {
    Unit,
    Bool,
    Char,
    Integer(u32),
    Pointer(Box<ParsedTypeValue>),
    Named { name: String, generic_args: Vec<ParsedTypeValue> },
    Function { return_type: Box<ParsedTypeValue>, params: Vec<ParsedTypeValue> },
}

pub type ParsedType = Located<ParsedTypeValue>;

#[derive(Debug)]
pub enum ParsedLiteral {
    Unit,
    Bool(bool),
    Char(i8),
    Integer(i64),
    String(String),
}

#[derive(Debug, Clone, Copy, PartialEq, Eq, Structural)]
pub enum UnaryMathOp {
    Positive,
    Negate,
    BitwiseNot,
}

#[derive(Debug, Clone, Copy, PartialEq, Eq, Structural)]
pub enum BinaryMathOp {
    Add,
    Sub,
    Mul,
    Div,
    Mod,
    And,
    Or,
    Xor,
    Shl,
    Shr,
}

#[derive(Debug, Clone, Copy, PartialEq, Eq, Structural)]
pub enum BinaryLogicOp {
    And,
    Or,
}

#[derive(Debug, Clone, Copy, PartialEq, Eq, Structural)]
pub enum BinaryComparisonOp {
    Equals,
    NotEquals,
    Less,
    LessEquals,
    Greater,
    GreaterEquals,
}

#[derive(Debug)]
pub enum UnaryOp {
    Math(UnaryMathOp),
    LogicalNot,
    Borrow,
    Dereference,
    Increment { is_prefix: bool },
    Decrement { is_prefix: bool },
    Cast(ParsedType),
    Member(String),
}

#[derive(Debug, Clone, Copy, PartialEq, Eq, Structural)]
pub enum BinaryOp {
    Index,
    Math(BinaryMathOp),
    Logical(BinaryLogicOp),
    Comparison(BinaryComparisonOp),
    Assign,
    MathAssign(BinaryMathOp),
    LogicAssign(BinaryLogicOp),
}

/// Expressions as parsed.
#[derive(Debug)]
#[allow(inconsistent_fields)]
pub enum ParsedExpressionKind {
    Block { expressions: Vec<ParsedExpression>, returns_value: bool },
    Return(Option<Box<ParsedExpression>>),
    Continue,
    Break(Option<Box<ParsedExpression>>),
    If {
        condition: Box<ParsedExpression>,
        then_block: Box<ParsedExpression>,
        else_expr: Option<Box<ParsedExpression>>,
    },
    Loop {
        init: Option<Box<ParsedExpression>>,
        condition: Option<Box<ParsedExpression>>,
        step: Option<Box<ParsedExpression>>,
        loop_body: Box<ParsedExpression>,
        else_expr: Option<Box<ParsedExpression>>,
    },
    Declaration { var_type: Option<ParsedType>, var_name: String, value: Box<ParsedExpression> },
    Variable(ParsedGenericId),
    StructInstance { struct_type: ParsedType, fields: Vec<(String, ParsedExpression)> },
    Literal(ParsedLiteral),
    Unary { op: UnaryOp, expr: Box<ParsedExpression> },
    Binary { op: BinaryOp, left: Box<ParsedExpression>, right: Box<ParsedExpression> },
    FunctionCall { expr: Box<ParsedExpression>, args: Vec<ParsedExpression> },
    Sizeof(ParsedType),
    Tuple(Vec<ParsedExpression>),
}

pub type ParsedExpression = Located<ParsedExpressionKind>;

} // verus!
