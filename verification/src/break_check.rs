use vstd::prelude::*;
use crate::analysis_spec::{
    opt_type, spec_break_type, spec_break_type_assignable, spec_break_type_fields,
    spec_break_type_seq,
};
use crate::analyzed_expression::{
    expr_views, field_views, lemma_expr_views, lemma_field_views, AnalyzedExpression,
    AnalyzedExpressionKind, AnalyzedFunctionCallType, AssignableExpression,
    AssignableExpressionKind,
};
use crate::analyzed_type::{clone_type, types_equal, AnalyzedTypeId, TypeView};
use crate::analyzer_error::{AnalyzerError, AnalyzerErrorKind, ErrorView, make_error2};
use crate::analyzed_text::type_string;

verus! {

/// Model of an optional type.
pub open spec fn opt_type_view(t: Option<AnalyzedTypeId>) -> Option<TypeView> {
    match t {
        Some(x) => Some(x@),
        None => None,
    }
}

/// Model of an optional borrowed type.
pub open spec fn opt_ref_view(t: Option<&AnalyzedTypeId>) -> Option<TypeView> {
    match t {
        Some(x) => Some(x@),
        None => None,
    }
}

/// Whether a computed break type agrees with its model.
pub open spec fn break_result_matches(
    r: Result<Option<AnalyzedTypeId>, AnalyzerError>,
    s: Result<Option<TypeView>, ErrorView>,
) -> bool {
    match (r, s) {
        (Ok(t), Ok(u)) => opt_type_view(t) == u,
        (Err(e), Err(f)) => e@ == f,
        _ => false,
    }
}

fn clone_opt_type(t: Option<&AnalyzedTypeId>) -> (r: Option<AnalyzedTypeId>)
    ensures
        opt_type_view(r) == opt_ref_view(t),
{
    match t {
        Some(x) => Some(clone_type(x)),
        None => None,
    }
}

/// Checks the `break`s of `expr` against `break_type`, the type that the enclosing loop's
/// `break`s must have so far, and returns the type they have afterwards: the type of the
/// first `break` when none was required. Nested loop bodies are not entered: their
/// `break`s belong to the nested loop.
pub fn assert_break_return_type(
    break_type: Option<&AnalyzedTypeId>,
    expr: &AnalyzedExpression,
) -> (r: Result<Option<AnalyzedTypeId>, AnalyzerError>)
    ensures
        break_result_matches(r, spec_break_type(opt_ref_view(break_type), expr@)),
    decreases expr, 1nat,
{
    proof {
        assert(expr@.kind == crate::analyzed_expression::kind_view(expr.kind));
    }
    match &expr.kind {
        AnalyzedExpressionKind::Block { expressions, .. } => {
            proof {
                lemma_expr_views(expressions@);
            }
            assert_break_return_type_all(break_type, expressions)
        },
        AnalyzedExpressionKind::Return(maybe_expr) => match maybe_expr {
            Some(inner) => assert_break_return_type(break_type, inner),
            None => Ok(clone_opt_type(break_type)),
        },
        AnalyzedExpressionKind::Continue => Ok(clone_opt_type(break_type)),
        AnalyzedExpressionKind::Break(maybe_expr) => {
            let expr_type = match maybe_expr {
                Some(inner) => clone_type(&inner.ty),
                None => AnalyzedTypeId::Unit,
            };
            proof {
                let k = expr@.kind;
                assert(k == crate::analyzed_expression::KindView::Break(
                    crate::analyzed_expression::opt_view(*maybe_expr),
                ));
                assert(expr_type@ == opt_type(crate::analyzed_expression::opt_view(*maybe_expr)));
            }
            let mismatch = match break_type {
                Some(t) => !types_equal(t, &expr_type),
                None => false,
            };
            if mismatch {
                let required = match break_type {
                    Some(t) => type_string(t),
                    None => String::new(),
                };
                Err(make_error2(AnalyzerErrorKind::BreakTypeMismatch, &expr.location, type_string(&expr_type), required))
            } else {
                Ok(Some(expr_type))
            }
        },
        AnalyzedExpressionKind::If { condition, then_block, else_expr } => {
            let b1 = match assert_break_return_type(break_type, condition) {
                Ok(t) => t,
                Err(e) => return Err(e),
            };
            let b2 = match assert_break_return_type(b1.as_ref(), then_block) {
                Ok(t) => t,
                Err(e) => return Err(e),
            };
            match else_expr {
                Some(x) => assert_break_return_type(b2.as_ref(), x),
                None => Ok(b2),
            }
        },
        AnalyzedExpressionKind::Loop { init, else_expr, .. } => {
            proof {
                assert(expr@.kind matches crate::analyzed_expression::KindView::Loop { init: i, else_expr: x, .. }
                    && i == crate::analyzed_expression::opt_view(*init) && x == crate::analyzed_expression::opt_view(*else_expr));
            }
            let b1 = match init {
                Some(x) => match assert_break_return_type(break_type, x) {
                    Ok(t) => t,
                    Err(e) => return Err(e),
                },
                None => clone_opt_type(break_type),
            };
            match else_expr {
                Some(x) => assert_break_return_type(b1.as_ref(), x),
                None => Ok(b1),
            }
        },
        AnalyzedExpressionKind::Declaration { value, .. } => assert_break_return_type(
            break_type,
            value,
        ),
        AnalyzedExpressionKind::ValueOfAssignable(a) => assert_break_return_type_assignable(
            break_type,
            a,
        ),
        AnalyzedExpressionKind::StructInstance { fields } => {
            proof {
                lemma_field_views(fields@);
            }
            assert_break_return_type_fields(break_type, fields)
        },
        AnalyzedExpressionKind::Literal(_) => Ok(clone_opt_type(break_type)),
        AnalyzedExpressionKind::ConstantPointer(_) => Ok(clone_opt_type(break_type)),
        AnalyzedExpressionKind::Unary { expr: inner, .. } => assert_break_return_type(
            break_type,
            inner,
        ),
        AnalyzedExpressionKind::Binary { left, right, .. } => {
            let b1 = match assert_break_return_type(break_type, left) {
                Ok(t) => t,
                Err(e) => return Err(e),
            };
            assert_break_return_type(b1.as_ref(), right)
        },
        AnalyzedExpressionKind::Assign { lhs, rhs, .. } => {
            let b1 = match assert_break_return_type_assignable(break_type, lhs) {
                Ok(t) => t,
                Err(e) => return Err(e),
            };
            assert_break_return_type(b1.as_ref(), rhs)
        },
        AnalyzedExpressionKind::Borrow { expr: a } => assert_break_return_type_assignable(
            break_type,
            a,
        ),
        AnalyzedExpressionKind::FunctionCall { call_type, args } => {
            let b1 = match call_type {
                AnalyzedFunctionCallType::Function(_) => clone_opt_type(break_type),
                AnalyzedFunctionCallType::FunctionPointer(inner) => match assert_break_return_type(
                    break_type,
                    inner,
                ) {
                    Ok(t) => t,
                    Err(e) => return Err(e),
                },
            };
            proof {
                lemma_expr_views(args@);
            }
            assert_break_return_type_all(b1.as_ref(), args)
        },
        AnalyzedExpressionKind::FieldAccess { expr: inner, .. } => assert_break_return_type(
            break_type,
            inner,
        ),
        AnalyzedExpressionKind::Increment(a, _) => assert_break_return_type_assignable(
            break_type,
            a,
        ),
        AnalyzedExpressionKind::Decrement(a, _) => assert_break_return_type_assignable(
            break_type,
            a,
        ),
        AnalyzedExpressionKind::Sizeof(_) => Ok(clone_opt_type(break_type)),
        AnalyzedExpressionKind::FunctionPointer(_) => Ok(clone_opt_type(break_type)),
    }
}

/// The break check on an assignable expression.
pub fn assert_break_return_type_assignable(
    break_type: Option<&AnalyzedTypeId>,
    expr: &AssignableExpression,
) -> (r: Result<Option<AnalyzedTypeId>, AnalyzerError>)
    ensures
        break_result_matches(r, spec_break_type_assignable(opt_ref_view(break_type), expr@)),
    decreases expr, 1nat,
{
    match &expr.kind {
        AssignableExpressionKind::LocalVariable(_) => Ok(clone_opt_type(break_type)),
        AssignableExpressionKind::Dereference(inner) => assert_break_return_type(
            break_type,
            inner,
        ),
        AssignableExpressionKind::FieldAccess(inner, _) => assert_break_return_type_assignable(
            break_type,
            inner,
        ),
        AssignableExpressionKind::PointerFieldAccess(inner, _, _) => assert_break_return_type(
            break_type,
            inner,
        ),
        AssignableExpressionKind::ArrayIndex(arr, index) => {
            let b1 = match assert_break_return_type(break_type, arr) {
                Ok(t) => t,
                Err(e) => return Err(e),
            };
            assert_break_return_type(b1.as_ref(), index)
        },
    }
}

/// The break check on a sequence of expressions, in order.
fn assert_break_return_type_all(
    break_type: Option<&AnalyzedTypeId>,
    expressions: &Vec<AnalyzedExpression>,
) -> (r: Result<Option<AnalyzedTypeId>, AnalyzerError>)
    ensures
        break_result_matches(
            r,
            spec_break_type_seq(
                opt_ref_view(break_type),
                expr_views(expressions@),
                expressions@.len(),
            ),
        ),
    decreases expressions, 0nat,
{
    let ghost s = expr_views(expressions@);
    proof {
        lemma_expr_views(expressions@);
    }
    let mut current = clone_opt_type(break_type);
    let mut i: usize = 0;
    while i < expressions.len()
        invariant
            i <= expressions@.len(),
            s == expr_views(expressions@),
            s.len() == expressions@.len(),
            forall|j: int| 0 <= j < expressions@.len() ==> #[trigger] s[j] == expressions@[j]@,
            spec_break_type_seq(opt_ref_view(break_type), s, i as nat) == Ok::<
                Option<TypeView>,
                ErrorView,
            >(opt_type_view(current)),
        decreases expressions@.len() - i,
    {
        proof {
            assert(decreases_to!(expressions => expressions@[i as int]));
        }
        let next = assert_break_return_type(current.as_ref(), &expressions[i]);
        match next {
            Err(e) => {
                proof {
                    lemma_seq_error_stays(opt_ref_view(break_type), s, (i + 1) as nat, expressions@.len());
                }
                return Err(e);
            },
            Ok(t) => {
                current = t;
            },
        }
        i += 1;
    }
    Ok(current)
}

/// Once the break check of a prefix fails, the check of every longer prefix fails the same way.
proof fn lemma_seq_error_stays(b: Option<TypeView>, s: Seq<crate::analyzed_expression::ExprView>, n: nat, m: nat)
    requires
        n <= m <= s.len(),
        spec_break_type_seq(b, s, n) is Err,
    ensures
        spec_break_type_seq(b, s, m) == spec_break_type_seq(b, s, n),
    decreases m - n,
{
    if n < m {
        lemma_seq_error_stays(b, s, n, (m - 1) as nat);
    }
}

/// The break check on the values of struct fields, in order.
fn assert_break_return_type_fields(
    break_type: Option<&AnalyzedTypeId>,
    fields: &Vec<(String, AnalyzedExpression)>,
) -> (r: Result<Option<AnalyzedTypeId>, AnalyzerError>)
    ensures
        break_result_matches(
            r,
            spec_break_type_fields(opt_ref_view(break_type), field_views(fields@), fields@.len()),
        ),
    decreases fields, 0nat,
{
    let ghost s = field_views(fields@);
    proof {
        lemma_field_views(fields@);
    }
    let mut current = clone_opt_type(break_type);
    let mut i: usize = 0;
    while i < fields.len()
        invariant
            i <= fields@.len(),
            s == field_views(fields@),
            s.len() == fields@.len(),
            forall|j: int| 0 <= j < fields@.len() ==> #[trigger] s[j] == (fields@[j].0@, fields@[j].1@),
            spec_break_type_fields(opt_ref_view(break_type), s, i as nat) == Ok::<
                Option<TypeView>,
                ErrorView,
            >(opt_type_view(current)),
        decreases fields@.len() - i,
    {
        proof {
            assert(decreases_to!(fields => fields@[i as int].1));
        }
        let next = assert_break_return_type(current.as_ref(), &fields[i].1);
        match next {
            Err(e) => {
                proof {
                    lemma_fields_error_stays(opt_ref_view(break_type), s, (i + 1) as nat, fields@.len());
                }
                return Err(e);
            },
            Ok(t) => {
                current = t;
            },
        }
        i += 1;
    }
    Ok(current)
}

proof fn lemma_fields_error_stays(
    b: Option<TypeView>,
    s: Seq<(Seq<char>, crate::analyzed_expression::ExprView)>,
    n: nat,
    m: nat,
)
    requires
        n <= m <= s.len(),
        spec_break_type_fields(b, s, n) is Err,
    ensures
        spec_break_type_fields(b, s, m) == spec_break_type_fields(b, s, n),
    decreases m - n,
{
    if n < m {
        lemma_fields_error_stays(b, s, n, (m - 1) as nat);
    }
}

} // verus!
