use vstd::prelude::*;
use crate::analyzed_expression::{
    AssignableKindView, AssignableView, CallTypeView, ExprView, KindView,
};
use crate::analyzed_text::{
    assign_op_text, binary_op_text, bytes_text, function_ref_text, literal_text, type_text,
    unary_op_text,
};
use crate::text::{bool_text, nat_text};

verus! {

/// A printed line.
pub type PrintedLine = (nat, Seq<char>);

/// The larger of two numbers.
pub open spec fn larger(a: nat, b: nat) -> nat {
    if a >= b {
        a
    } else {
        b
    }
}

/// How many indentation levels printing an expression goes below the level it starts at.
pub open spec fn expr_depth(e: ExprView) -> nat
    decreases e, 1nat,
{
    match e.kind {
        KindView::Block { expressions, .. } => 1 + exprs_depth(expressions),
        KindView::Return(x) => 1 + opt_depth(x),
        KindView::Continue => 0,
        KindView::Break(x) => 1 + opt_depth(x),
        KindView::If { condition, then_block, else_expr } => 1 + larger(
            larger(expr_depth(*condition), expr_depth(*then_block)),
            opt_depth(else_expr),
        ),
        KindView::Loop { init, condition, step, loop_body, else_expr } => 1 + larger(
            larger(larger(opt_depth(init), opt_depth(condition)), larger(opt_depth(step), expr_depth(*loop_body))),
            opt_depth(else_expr),
        ),
        KindView::Declaration { value, .. } => 1 + expr_depth(*value),
        KindView::ValueOfAssignable(a) => 1 + assignable_depth(a),
        KindView::Literal(_) => 0,
        KindView::ConstantPointer(_) => 0,
        KindView::Unary { expr, .. } => 1 + expr_depth(*expr),
        KindView::Binary { left, right, .. } => 1 + larger(expr_depth(*left), expr_depth(*right)),
        KindView::Assign { lhs, rhs, .. } => 1 + larger(assignable_depth(lhs), expr_depth(*rhs)),
        KindView::Borrow { expr } => 1 + assignable_depth(expr),
        KindView::FunctionCall { call_type, args } => 1 + larger(
            match call_type {
                CallTypeView::Function(_) => 0,
                CallTypeView::FunctionPointer(inner) => expr_depth(*inner),
            },
            exprs_depth(args),
        ),
        KindView::FieldAccess { expr, .. } => 1 + expr_depth(*expr),
        KindView::Increment(a, _) => 1 + assignable_depth(a),
        KindView::Decrement(a, _) => 1 + assignable_depth(a),
        KindView::Sizeof(_) => 0,
        KindView::StructInstance { fields } => 1 + fields_depth(fields),
        KindView::FunctionPointer(_) => 0,
    }
}

pub open spec fn assignable_depth(a: AssignableView) -> nat
    decreases a, 1nat,
{
    match a.kind {
        AssignableKindView::LocalVariable(_) => 0,
        AssignableKindView::Dereference(e) => 1 + expr_depth(*e),
        AssignableKindView::FieldAccess(inner, _) => 1 + assignable_depth(*inner),
        AssignableKindView::PointerFieldAccess(e, _, _) => 1 + expr_depth(*e),
        AssignableKindView::ArrayIndex(arr, index) => 1 + larger(expr_depth(*arr), expr_depth(*index)),
    }
}

pub open spec fn opt_depth(x: Option<Box<ExprView>>) -> nat
    decreases x, 2nat,
{
    match x {
        Some(b) => expr_depth(*b),
        None => 0,
    }
}

pub open spec fn exprs_depth(s: Seq<ExprView>) -> nat
    decreases s, 0nat,
{
    if s.len() == 0 {
        0
    } else {
        larger(exprs_depth(s.drop_last()), expr_depth(s.last()))
    }
}

pub open spec fn fields_depth(s: Seq<(Seq<char>, ExprView)>) -> nat
    decreases s, 0nat,
{
    if s.len() == 0 {
        0
    } else {
        larger(fields_depth(s.drop_last()), expr_depth(s.last().1))
    }
}

/// The lines that printing an analyzed expression adds, starting at level `k`: the
/// expression's type, then a line naming its kind, with its parts one level deeper.
pub open spec fn expr_lines(e: ExprView, k: nat) -> Seq<PrintedLine>
    decreases e, 1nat,
{
    seq![(k, "Expr type: "@ + type_text(e.ty))] + kind_lines(e.kind, k)
}

/// The lines that name an expression of this kind and print its parts.
pub open spec fn kind_lines(kind: KindView, k: nat) -> Seq<PrintedLine>
    decreases kind, 1nat,
{
    match kind {
        KindView::Block { .. } | KindView::Return(..) | KindView::Continue | KindView::Break(..) | KindView::If { .. } | KindView::Loop { .. } => control_lines(kind, k),
        KindView::Declaration { .. } | KindView::ValueOfAssignable(..) | KindView::StructInstance { .. } | KindView::Literal(..) | KindView::ConstantPointer(..) | KindView::Sizeof(..) | KindView::FunctionPointer(..) => value_lines(kind, k),
        _ => operator_lines(kind, k),
    }
}

/// The lines of blocks, returns, breaks, conditionals and loops.
pub open spec fn control_lines(kind: KindView, k: nat) -> Seq<PrintedLine>
    decreases kind, 0nat,
{
    let j = k + 1;
    match kind {
        KindView::Block { expressions, returns_value } => seq![
            (k, "Block (returns: "@ + bool_text(returns_value) + ") {"@),
        ] + exprs_lines(expressions, j) + seq![(k, "}"@)],
        KindView::Return(x) => seq![(k, "Return {"@)] + opt_lines(x, j) + seq![(k, "}"@)],
        KindView::Continue => seq![(k, "Continue"@)],
        KindView::Break(x) => seq![(k, "Break {"@)] + opt_lines(x, j) + seq![(k, "}"@)],
        KindView::If { condition, then_block, else_expr } => seq![(k, "If {"@)] + expr_lines(
            *condition,
            j,
        ) + expr_lines(*then_block, j) + opt_lines(else_expr, j) + seq![(k, "}"@)],
        KindView::Loop { init, condition, step, loop_body, else_expr } => seq![(k, "Loop {"@)]
            + opt_lines(init, j) + opt_lines(condition, j) + opt_lines(step, j) + expr_lines(
            *loop_body,
            j,
        ) + opt_lines(else_expr, j) + seq![(k, "}"@)],
        _ => Seq::empty(),
    }
}

/// The lines of declarations, places read as values, struct instances and constants.
pub open spec fn value_lines(kind: KindView, k: nat) -> Seq<PrintedLine>
    decreases kind, 0nat,
{
    let j = k + 1;
    match kind {
        KindView::Declaration { var_name, value } => seq![
            (k, "Declaration("@ + var_name + ")"@),
        ] + expr_lines(*value, j),
        KindView::ValueOfAssignable(a) => seq![(k, "ValueOfAssignable"@)] + assignable_lines(a, j),
        KindView::Literal(l) => seq![(k, "Literal("@ + literal_text(l) + ")"@)],
        KindView::ConstantPointer(bytes) => seq![
            (k, "ConstantPointer(String(["@ + bytes_text(bytes) + "]))"@),
        ],
        KindView::Sizeof(t) => seq![(k, "Sizeof("@ + type_text(t) + ")"@)],
        KindView::StructInstance { fields } => seq![(k, "Struct"@)] + fields_lines(fields, j),
        KindView::FunctionPointer(f) => seq![(k, "FunctionPointer("@ + function_ref_text(f) + ")"@)],
        _ => Seq::empty(),
    }
}

/// The lines of operators, assignments, borrows, calls and field accesses.
pub open spec fn operator_lines(kind: KindView, k: nat) -> Seq<PrintedLine>
    decreases kind, 0nat,
{
    let j = k + 1;
    match kind {
        KindView::Unary { op, expr } => seq![(k, "Unary("@ + unary_op_text(op) + ")"@)]
            + expr_lines(*expr, j),
        KindView::Binary { op, left, right } => seq![(k, "Binary("@ + binary_op_text(op) + ")"@)]
            + expr_lines(*left, j) + expr_lines(*right, j),
        KindView::Assign { op, lhs, rhs } => seq![(k, "Assign("@ + assign_op_text(op) + ")"@)]
            + assignable_lines(lhs, j) + expr_lines(*rhs, j),
        KindView::Borrow { expr } => seq![(k, "Borrow"@)] + assignable_lines(expr, j),
        KindView::FunctionCall { call_type, args } => seq![(k, "FunctionCall"@)] + match call_type {
            CallTypeView::Function(f) => seq![(j, "Function("@ + function_ref_text(f) + ")"@)],
            CallTypeView::FunctionPointer(inner) => expr_lines(*inner, j),
        } + exprs_lines(args, j),
        KindView::FieldAccess { expr, field_name } => seq![
            (k, "FieldAccess("@ + field_name + ")"@),
        ] + expr_lines(*expr, j),
        KindView::Increment(a, b) => seq![(k, "Increment("@ + bool_text(b) + ")"@)]
            + assignable_lines(a, j),
        KindView::Decrement(a, b) => seq![(k, "Decrement("@ + bool_text(b) + ")"@)]
            + assignable_lines(a, j),
        _ => Seq::empty(),
    }
}

/// The lines that printing an assignable expression adds, starting at level `k`.
pub open spec fn assignable_lines(a: AssignableView, k: nat) -> Seq<PrintedLine>
    decreases a, 1nat,
{
    let j = k + 1;
    match a.kind {
        AssignableKindView::LocalVariable(name) => seq![(k, "LocalVariable("@ + name + ")"@)],
        AssignableKindView::Dereference(e) => seq![(k, "Dereference"@)] + expr_lines(*e, j),
        AssignableKindView::FieldAccess(inner, field) => seq![(k, "FieldAccess("@ + field + ")"@)]
            + assignable_lines(*inner, j),
        AssignableKindView::PointerFieldAccess(e, field, n) => seq![
            (k, "PointerFieldAccess("@ + field + ", "@ + nat_text(n as nat) + ")"@),
        ] + expr_lines(*e, j),
        AssignableKindView::ArrayIndex(arr, index) => seq![(k, "ArrayIndex"@)] + expr_lines(
            *arr,
            j,
        ) + expr_lines(*index, j),
    }
}

pub open spec fn opt_lines(x: Option<Box<ExprView>>, k: nat) -> Seq<PrintedLine>
    decreases x, 2nat,
{
    match x {
        Some(b) => expr_lines(*b, k),
        None => Seq::empty(),
    }
}

/// The lines of expressions printed one after the other at level `k`.
pub open spec fn exprs_lines(s: Seq<ExprView>, k: nat) -> Seq<PrintedLine>
    decreases s, 0nat,
{
    if s.len() == 0 {
        Seq::empty()
    } else {
        exprs_lines(s.drop_last(), k) + expr_lines(s.last(), k)
    }
}

/// The lines of struct fields printed one after the other at level `k`: each field's
/// name, then its value.
pub open spec fn fields_lines(s: Seq<(Seq<char>, ExprView)>, k: nat) -> Seq<PrintedLine>
    decreases s, 0nat,
{
    if s.len() == 0 {
        Seq::empty()
    } else {
        fields_lines(s.drop_last(), k) + seq![(k, s.last().0 + ": "@)] + expr_lines(s.last().1, k)
    }
}

} // verus!
