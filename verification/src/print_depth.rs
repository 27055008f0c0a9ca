use vstd::prelude::*;
use crate::analyzed_expression::{
    expr_views, field_views, kind_view, lemma_expr_views, lemma_field_views, opt_view,
    AnalyzedExpression, AnalyzedExpressionKind, AnalyzedFunctionCallType, AssignableExpression,
    AssignableExpressionKind, AssignableKindView, ExprView,
};
use crate::analyzed_print_spec::{
    assignable_depth, expr_depth, exprs_depth, fields_depth, larger, opt_depth,
};

verus! {

/// Whether printing an analyzed expression stays within `limit` indentation levels below
/// the level it starts at.
pub fn expression_fits(expr: &AnalyzedExpression, limit: usize) -> (r: bool)
    ensures
        r == (expr_depth(expr@) <= limit),
    decreases expr, 1nat,
{
    proof {
        assert(expr@.kind == kind_view(expr.kind));
    }
    if limit == 0 {
        return match &expr.kind {
            AnalyzedExpressionKind::Continue | AnalyzedExpressionKind::Literal(_)
            | AnalyzedExpressionKind::ConstantPointer(_) | AnalyzedExpressionKind::Sizeof(_)
            | AnalyzedExpressionKind::FunctionPointer(_) => true,
            _ => false,
        };
    }
    let inner = limit - 1;
    match &expr.kind {
        AnalyzedExpressionKind::Block { expressions, .. } => all_fit(expressions, inner),
        AnalyzedExpressionKind::Return(x) => optional_fits(x, inner),
        AnalyzedExpressionKind::Continue => true,
        AnalyzedExpressionKind::Break(x) => optional_fits(x, inner),
        AnalyzedExpressionKind::If { condition, then_block, else_expr } => {
            expression_fits(condition, inner) && expression_fits(then_block, inner)
                && optional_fits(else_expr, inner)
        },
        AnalyzedExpressionKind::Loop { init, condition, step, loop_body, else_expr } => {
            optional_fits(init, inner) && optional_fits(condition, inner) && optional_fits(step, inner)
                && expression_fits(loop_body, inner) && optional_fits(else_expr, inner)
        },
        AnalyzedExpressionKind::Declaration { value, .. } => expression_fits(value, inner),
        AnalyzedExpressionKind::ValueOfAssignable(a) => assignable_fits(a, inner),
        AnalyzedExpressionKind::Literal(_) => true,
        AnalyzedExpressionKind::ConstantPointer(_) => true,
        AnalyzedExpressionKind::Unary { expr: e, .. } => expression_fits(e, inner),
        AnalyzedExpressionKind::Binary { left, right, .. } => {
            expression_fits(left, inner) && expression_fits(right, inner)
        },
        AnalyzedExpressionKind::Assign { lhs, rhs, .. } => {
            assignable_fits(lhs, inner) && expression_fits(rhs, inner)
        },
        AnalyzedExpressionKind::Borrow { expr: a } => assignable_fits(a, inner),
        AnalyzedExpressionKind::FunctionCall { call_type, args } => {
            let callee_fits = match call_type {
                AnalyzedFunctionCallType::Function(_) => true,
                AnalyzedFunctionCallType::FunctionPointer(e) => expression_fits(e, inner),
            };
            callee_fits && all_fit(args, inner)
        },
        AnalyzedExpressionKind::FieldAccess { expr: e, .. } => expression_fits(e, inner),
        AnalyzedExpressionKind::Increment(a, _) => assignable_fits(a, inner),
        AnalyzedExpressionKind::Decrement(a, _) => assignable_fits(a, inner),
        AnalyzedExpressionKind::Sizeof(_) => true,
        AnalyzedExpressionKind::StructInstance { fields } => fields_fit(fields, inner),
        AnalyzedExpressionKind::FunctionPointer(_) => true,
    }
}

/// Whether printing an assignable expression stays within `limit` levels.
pub fn assignable_fits(expr: &AssignableExpression, limit: usize) -> (r: bool)
    ensures
        r == (assignable_depth(expr@) <= limit),
    decreases expr, 1nat,
{
    match &expr.kind {
        AssignableExpressionKind::LocalVariable(name) => {
            assert(expr@.kind == AssignableKindView::LocalVariable(name@));
            true
        },
        AssignableExpressionKind::Dereference(e) => {
            assert(expr@.kind == AssignableKindView::Dereference(Box::new((**e)@)));
            limit > 0 && expression_fits(e, limit - 1)
        },
        AssignableExpressionKind::FieldAccess(a, name) => {
            assert(expr@.kind == AssignableKindView::FieldAccess(Box::new((**a)@), name@));
            limit > 0 && assignable_fits(a, limit - 1)
        },
        AssignableExpressionKind::PointerFieldAccess(e, name, n) => {
            assert(expr@.kind == AssignableKindView::PointerFieldAccess(Box::new((**e)@), name@, *n));
            limit > 0 && expression_fits(e, limit - 1)
        },
        AssignableExpressionKind::ArrayIndex(arr, index) => {
            assert(expr@.kind == AssignableKindView::ArrayIndex(Box::new((**arr)@), Box::new((**index)@)));
            limit > 0 && expression_fits(arr, limit - 1) && expression_fits(index, limit - 1)
        },
    }
}

fn optional_fits(x: &Option<Box<AnalyzedExpression>>, limit: usize) -> (r: bool)
    ensures
        r == (opt_depth(opt_view(*x)) <= limit),
    decreases x, 2nat,
{
    match x {
        Some(e) => expression_fits(e, limit),
        None => true,
    }
}

fn all_fit(expressions: &Vec<AnalyzedExpression>, limit: usize) -> (r: bool)
    ensures
        r == (exprs_depth(expr_views(expressions@)) <= limit),
    decreases expressions, 0nat,
{
    let ghost s = expr_views(expressions@);
    proof {
        lemma_expr_views(expressions@);
        assert(s.take(0) =~= Seq::<ExprView>::empty());
    }
    let mut i: usize = 0;
    while i < expressions.len()
        invariant
            i <= expressions@.len(),
            s == expr_views(expressions@),
            s.len() == expressions@.len(),
            forall|j: int| 0 <= j < expressions@.len() ==> #[trigger] s[j] == expressions@[j]@,
            exprs_depth(s.take(i as int)) <= limit,
        decreases expressions@.len() - i,
    {
        proof {
            assert(decreases_to!(expressions => expressions@[i as int]));
            let t = s.take((i + 1) as int);
            assert(t.drop_last() =~= s.take(i as int));
        }
        if !expression_fits(&expressions[i], limit) {
            proof {
                lemma_prefix_depth(s, (i + 1) as int);
            }
            return false;
        }
        i += 1;
    }
    proof {
        assert(s.take(expressions@.len() as int) =~= s);
    }
    true
}

proof fn lemma_prefix_depth(s: Seq<ExprView>, n: int)
    requires
        0 <= n <= s.len(),
    ensures
        exprs_depth(s.take(n)) <= exprs_depth(s),
    decreases s.len(),
{
    if n < s.len() {
        lemma_prefix_depth(s.drop_last(), n);
        assert(s.drop_last().take(n) =~= s.take(n));
    } else {
        assert(s.take(n) =~= s);
    }
}

proof fn lemma_prefix_fields_depth(s: Seq<(Seq<char>, ExprView)>, n: int)
    requires
        0 <= n <= s.len(),
    ensures
        fields_depth(s.take(n)) <= fields_depth(s),
    decreases s.len(),
{
    if n < s.len() {
        lemma_prefix_fields_depth(s.drop_last(), n);
        assert(s.drop_last().take(n) =~= s.take(n));
    } else {
        assert(s.take(n) =~= s);
    }
}

fn fields_fit(fields: &Vec<(String, AnalyzedExpression)>, limit: usize) -> (r: bool)
    ensures
        r == (fields_depth(field_views(fields@)) <= limit),
    decreases fields, 0nat,
{
    let ghost s = field_views(fields@);
    proof {
        lemma_field_views(fields@);
        assert(s.take(0) =~= Seq::<(Seq<char>, ExprView)>::empty());
    }
    let mut i: usize = 0;
    while i < fields.len()
        invariant
            i <= fields@.len(),
            s == field_views(fields@),
            s.len() == fields@.len(),
            forall|j: int| 0 <= j < fields@.len() ==> #[trigger] s[j] == (fields@[j].0@, fields@[j].1@),
            fields_depth(s.take(i as int)) <= limit,
        decreases fields@.len() - i,
    {
        proof {
            assert(decreases_to!(fields => fields@[i as int].1));
            let t = s.take((i + 1) as int);
            assert(t.drop_last() =~= s.take(i as int));
        }
        if !expression_fits(&fields[i].1, limit) {
            proof {
                lemma_prefix_fields_depth(s, (i + 1) as int);
            }
            return false;
        }
        i += 1;
    }
    proof {
        assert(s.take(fields@.len() as int) =~= s);
    }
    true
}

} // verus!
