use vstd::prelude::*;
use std::collections::HashMap;
use crate::analyzed_type::{AnalyzedTypeId, TypeView};
use crate::location::Location;
use crate::parsed_expression::{BinaryComparisonOp, BinaryLogicOp, BinaryMathOp, UnaryMathOp};
use crate::resolved_functions::{FunctionId, FunctionRef, FunctionRefView, ResolvedFunctions};
use crate::resolved_types::ResolvedTypes;

verus! {

/// A program after analysis: its declarations and the analyzed body of each function.
#[derive(Debug)]
pub struct AnalyzedProgram {
    pub resolved_types: ResolvedTypes,
    pub resolved_functions: ResolvedFunctions,
    pub function_bodies: HashMap<FunctionId, AnalyzedExpression>,
    pub main_function: FunctionRef,
}

/// An expression together with its type and where it was written.
#[derive(Debug)]
pub struct AnalyzedExpression {
    pub kind: AnalyzedExpressionKind,
    pub ty: AnalyzedTypeId,
    pub location: Location,
}

#[derive(Debug)]
#[allow(inconsistent_fields)]
pub enum AnalyzedExpressionKind {
    Block { expressions: Vec<AnalyzedExpression>, returns_value: bool },
    Return(Option<Box<AnalyzedExpression>>),
    Continue,
    Break(Option<Box<AnalyzedExpression>>),
    If {
        condition: Box<AnalyzedExpression>,
        then_block: Box<AnalyzedExpression>,
        else_expr: Option<Box<AnalyzedExpression>>,
    },
    Loop {
        init: Option<Box<AnalyzedExpression>>,
        condition: Option<Box<AnalyzedExpression>>,
        step: Option<Box<AnalyzedExpression>>,
        loop_body: Box<AnalyzedExpression>,
        else_expr: Option<Box<AnalyzedExpression>>,
    },
    Declaration { var_name: String, value: Box<AnalyzedExpression> },
    ValueOfAssignable(AssignableExpression),
    Literal(AnalyzedLiteral),
    ConstantPointer(AnalyzedConstant),
    Unary { op: AnalyzedUnaryOp, expr: Box<AnalyzedExpression> },
    Binary { op: AnalyzedBinaryOp, left: Box<AnalyzedExpression>, right: Box<AnalyzedExpression> },
    Assign { op: BinaryAssignOp, lhs: AssignableExpression, rhs: Box<AnalyzedExpression> },
    Borrow { expr: AssignableExpression },
    FunctionCall { call_type: AnalyzedFunctionCallType, args: Vec<AnalyzedExpression> },
    FieldAccess { expr: Box<AnalyzedExpression>, field_name: String },
    Increment(AssignableExpression, bool),
    Decrement(AssignableExpression, bool),
    Sizeof(AnalyzedTypeId),
    StructInstance { fields: Vec<(String, AnalyzedExpression)> },
    FunctionPointer(FunctionRef),
}

#[derive(Debug)]
pub enum AnalyzedFunctionCallType {
    Function(FunctionRef),
    FunctionPointer(Box<AnalyzedExpression>),
}

#[derive(Debug, Clone, Copy, PartialEq, Eq, Structural)]
pub enum AnalyzedLiteral {
    Unit,
    Bool(bool),
    Char(i8),
    Integer(i64),
}

#[derive(Debug)]
pub enum AnalyzedConstant {
    String(Vec<u8>),
}

/// An expression that denotes a place that can be assigned to or borrowed.
#[derive(Debug)]
pub struct AssignableExpression {
    pub kind: AssignableExpressionKind,
    pub ty: AnalyzedTypeId,
}

#[derive(Debug)]
pub enum AssignableExpressionKind {
    LocalVariable(String),
    Dereference(Box<AnalyzedExpression>),
    FieldAccess(Box<AssignableExpression>, String),
    PointerFieldAccess(Box<AnalyzedExpression>, String, usize),
    ArrayIndex(Box<AnalyzedExpression>, Box<AnalyzedExpression>),
}

#[derive(Debug, Clone, Copy, PartialEq, Eq, Structural)]
pub enum AnalyzedBinaryOp {
    Math(BinaryMathOp),
    Logical(BinaryLogicOp),
    Comparison(BinaryComparisonOp),
}

#[derive(Debug, Clone, Copy, PartialEq, Eq, Structural)]
pub enum BinaryAssignOp {
    Assign,
    MathAssign(BinaryMathOp),
    LogicAssign(BinaryLogicOp),
}

#[derive(Debug, Clone, Copy, PartialEq, Eq, Structural)]
pub enum AnalyzedUnaryOp {
    Math(UnaryMathOp),
    LogicalNot,
    Cast,
}

/// Model of an analyzed expression.
pub struct ExprView {
    pub kind: KindView,
    pub ty: TypeView,
    pub location: Location,
}

/// Model of the kind of an analyzed expression.
pub enum KindView {
    Block { expressions: Seq<ExprView>, returns_value: bool },
    Return(Option<Box<ExprView>>),
    Continue,
    Break(Option<Box<ExprView>>),
    If { condition: Box<ExprView>, then_block: Box<ExprView>, else_expr: Option<Box<ExprView>> },
    Loop {
        init: Option<Box<ExprView>>,
        condition: Option<Box<ExprView>>,
        step: Option<Box<ExprView>>,
        loop_body: Box<ExprView>,
        else_expr: Option<Box<ExprView>>,
    },
    Declaration { var_name: Seq<char>, value: Box<ExprView> },
    ValueOfAssignable(AssignableView),
    Literal(AnalyzedLiteral),
    ConstantPointer(Seq<u8>),
    Unary { op: AnalyzedUnaryOp, expr: Box<ExprView> },
    Binary { op: AnalyzedBinaryOp, left: Box<ExprView>, right: Box<ExprView> },
    Assign { op: BinaryAssignOp, lhs: AssignableView, rhs: Box<ExprView> },
    Borrow { expr: AssignableView },
    FunctionCall { call_type: CallTypeView, args: Seq<ExprView> },
    FieldAccess { expr: Box<ExprView>, field_name: Seq<char> },
    Increment(AssignableView, bool),
    Decrement(AssignableView, bool),
    Sizeof(TypeView),
    StructInstance { fields: Seq<(Seq<char>, ExprView)> },
    FunctionPointer(FunctionRefView),
}

/// Model of the callee of a call.
pub enum CallTypeView {
    Function(FunctionRefView),
    FunctionPointer(Box<ExprView>),
}

/// Model of an assignable expression.
pub struct AssignableView {
    pub kind: AssignableKindView,
    pub ty: TypeView,
}

pub enum AssignableKindView {
    LocalVariable(Seq<char>),
    Dereference(Box<ExprView>),
    FieldAccess(Box<AssignableView>, Seq<char>),
    PointerFieldAccess(Box<ExprView>, Seq<char>, usize),
    ArrayIndex(Box<ExprView>, Box<ExprView>),
}

/// Models of a sequence of expressions.
pub open spec fn expr_views(s: Seq<AnalyzedExpression>) -> Seq<ExprView>
    decreases s,
{
    if s.len() == 0 {
        Seq::empty()
    } else {
        seq![s[0].view()] + expr_views(s.subrange(1, s.len() as int))
    }
}

/// Models of a sequence of named expressions.
pub open spec fn field_views(s: Seq<(String, AnalyzedExpression)>) -> Seq<(Seq<char>, ExprView)>
    decreases s,
{
    if s.len() == 0 {
        Seq::empty()
    } else {
        seq![(s[0].0@, s[0].1.view())] + field_views(s.subrange(1, s.len() as int))
    }
}

/// Model of an optional subexpression.
pub open spec fn opt_view(o: Option<Box<AnalyzedExpression>>) -> Option<Box<ExprView>>
    decreases o,
{
    match o {
        Some(b) => Some(Box::new((*b).view())),
        None => None,
    }
}

impl View for AnalyzedExpression {
    type V = ExprView;

    open spec fn view(&self) -> ExprView
        decreases self,
    {
        ExprView { kind: kind_view(self.kind), ty: self.ty@, location: self.location }
    }
}

/// Model of an expression kind.
pub open spec fn kind_view(k: AnalyzedExpressionKind) -> KindView
    decreases k,
{
    match k {
        AnalyzedExpressionKind::Block { expressions, returns_value } => KindView::Block {
            expressions: expr_views(expressions@),
            returns_value,
        },
        AnalyzedExpressionKind::Return(e) => KindView::Return(opt_view(e)),
        AnalyzedExpressionKind::Continue => KindView::Continue,
        AnalyzedExpressionKind::Break(e) => KindView::Break(opt_view(e)),
        AnalyzedExpressionKind::If { condition, then_block, else_expr } => KindView::If {
            condition: Box::new((*condition).view()),
            then_block: Box::new((*then_block).view()),
            else_expr: opt_view(else_expr),
        },
        AnalyzedExpressionKind::Loop { init, condition, step, loop_body, else_expr } => KindView::Loop {
            init: opt_view(init),
            condition: opt_view(condition),
            step: opt_view(step),
            loop_body: Box::new((*loop_body).view()),
            else_expr: opt_view(else_expr),
        },
        AnalyzedExpressionKind::Declaration { var_name, value } => KindView::Declaration {
            var_name: var_name@,
            value: Box::new((*value).view()),
        },
        AnalyzedExpressionKind::ValueOfAssignable(a) => KindView::ValueOfAssignable(a.view()),
        AnalyzedExpressionKind::Literal(l) => KindView::Literal(l),
        AnalyzedExpressionKind::ConstantPointer(AnalyzedConstant::String(bytes)) => KindView::ConstantPointer(
            bytes@,
        ),
        AnalyzedExpressionKind::Unary { op, expr } => KindView::Unary {
            op,
            expr: Box::new((*expr).view()),
        },
        AnalyzedExpressionKind::Binary { op, left, right } => KindView::Binary {
            op,
            left: Box::new((*left).view()),
            right: Box::new((*right).view()),
        },
        AnalyzedExpressionKind::Assign { op, lhs, rhs } => KindView::Assign {
            op,
            lhs: lhs.view(),
            rhs: Box::new((*rhs).view()),
        },
        AnalyzedExpressionKind::Borrow { expr } => KindView::Borrow { expr: expr.view() },
        AnalyzedExpressionKind::FunctionCall { call_type, args } => KindView::FunctionCall {
            call_type: match call_type {
                AnalyzedFunctionCallType::Function(f) => CallTypeView::Function(f@),
                AnalyzedFunctionCallType::FunctionPointer(e) => CallTypeView::FunctionPointer(
                    Box::new((*e).view()),
                ),
            },
            args: expr_views(args@),
        },
        AnalyzedExpressionKind::FieldAccess { expr, field_name } => KindView::FieldAccess {
            expr: Box::new((*expr).view()),
            field_name: field_name@,
        },
        AnalyzedExpressionKind::Increment(a, is_prefix) => KindView::Increment(a.view(), is_prefix),
        AnalyzedExpressionKind::Decrement(a, is_prefix) => KindView::Decrement(a.view(), is_prefix),
        AnalyzedExpressionKind::Sizeof(t) => KindView::Sizeof(t@),
        AnalyzedExpressionKind::StructInstance { fields } => KindView::StructInstance {
            fields: field_views(fields@),
        },
        AnalyzedExpressionKind::FunctionPointer(f) => KindView::FunctionPointer(f@),
    }
}

impl View for AssignableExpression {
    type V = AssignableView;

    open spec fn view(&self) -> AssignableView
        decreases self,
    {
        AssignableView {
            kind: match self.kind {
                AssignableExpressionKind::LocalVariable(name) => AssignableKindView::LocalVariable(
                    name@,
                ),
                AssignableExpressionKind::Dereference(e) => AssignableKindView::Dereference(
                    Box::new((*e).view()),
                ),
                AssignableExpressionKind::FieldAccess(a, name) => AssignableKindView::FieldAccess(
                    Box::new((*a).view()),
                    name@,
                ),
                AssignableExpressionKind::PointerFieldAccess(
                    e,
                    name,
                    n,
                ) => AssignableKindView::PointerFieldAccess(Box::new((*e).view()), name@, n),
                AssignableExpressionKind::ArrayIndex(a, i) => AssignableKindView::ArrayIndex(
                    Box::new((*a).view()),
                    Box::new((*i).view()),
                ),
            },
            ty: self.ty@,
        }
    }
}

pub proof fn lemma_expr_views(s: Seq<AnalyzedExpression>)
    ensures
        expr_views(s).len() == s.len(),
        forall|i: int| 0 <= i < s.len() ==> #[trigger] expr_views(s)[i] == s[i]@,
    decreases s.len(),
{
    if s.len() > 0 {
        let rest = s.subrange(1, s.len() as int);
        lemma_expr_views(rest);
        assert(expr_views(s) == seq![s[0]@] + expr_views(rest));
        assert forall|i: int| 0 <= i < s.len() implies #[trigger] expr_views(s)[i] == s[i]@ by {
            if i > 0 {
                assert(rest[i - 1] == s[i]);
            }
        }
    }
}

pub proof fn lemma_field_views(s: Seq<(String, AnalyzedExpression)>)
    ensures
        field_views(s).len() == s.len(),
        forall|i: int|
            0 <= i < s.len() ==> #[trigger] field_views(s)[i] == (s[i].0@, s[i].1@),
    decreases s.len(),
{
    if s.len() > 0 {
        let rest = s.subrange(1, s.len() as int);
        lemma_field_views(rest);
        assert(field_views(s) == seq![(s[0].0@, s[0].1@)] + field_views(rest));
        assert forall|i: int| 0 <= i < s.len() implies #[trigger] field_views(s)[i] == (
            s[i].0@,
            s[i].1@,
        ) by {
            if i > 0 {
                assert(rest[i - 1] == s[i]);
            }
        }
    }
}

} // verus!
