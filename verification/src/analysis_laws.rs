use vstd::prelude::*;
use crate::analysis_spec::{
    integer_literal_type, opt_type, required_break_type, spec_analyze, spec_analyze_block,
    spec_analyze_loop, spec_analyze_opt, spec_break_type, spec_break_type_assignable,
    spec_break_type_fields, spec_break_type_seq, spec_finish_loop, Env, Locals,
};
use crate::analyzed_expression::{AssignableView, ExprView, KindView};
use crate::analyzed_type::{spec_resolve_all, spec_resolve_generic_type, GenericId, TypeView};
use crate::analyzer_error::{error_at, ErrorView, AnalyzerErrorKind};
use crate::parsed_expression::{ParsedExpression, ParsedExpressionKind, ParsedLiteral};

verus! {

/// A block that is analyzed without error leaves the local variables as they were before
/// it: the variables it declares are gone, and those they shadowed are back.
pub proof fn law_block_restores_locals(
    ctx: Env,
    l: Locals,
    e: ParsedExpression,
    in_loop: bool,
    hint: Option<TypeView>,
)
    requires
        e.value is Block,
        spec_analyze(ctx, l, e, in_loop, hint).0 is Ok,
    ensures
        spec_analyze(ctx, l, e, in_loop, hint).1 == l,
{
    reveal_with_fuel(spec_analyze, 1);
    reveal_with_fuel(spec_analyze_block, 1);
}

/// `continue` is refused outside the body of a loop, and nothing else happens.
pub proof fn law_continue_outside_loop(ctx: Env, l: Locals, e: ParsedExpression, hint: Option<TypeView>)
    requires
        e.value is Continue,
    ensures
        spec_analyze(ctx, l, e, false, hint) == (
            Err::<ExprView, ErrorView>(error_at(AnalyzerErrorKind::ContinueOutsideLoop, e.location)),
            l,
        ),
{
    reveal_with_fuel(spec_analyze, 1);
}

/// `break` is refused outside the body of a loop.
pub proof fn law_break_outside_loop(ctx: Env, l: Locals, e: ParsedExpression, hint: Option<TypeView>)
    requires
        e.value is Break,
    ensures
        spec_analyze(ctx, l, e, false, hint).0 is Err,
{
    reveal_with_fuel(spec_analyze, 1);
    reveal_with_fuel(spec_analyze_opt, 1);
}

/// An integer literal has type `Integer(4)` when it fits in 32 bits and `Integer(8)`
/// otherwise, and is always accepted.
pub proof fn law_integer_literal_type(
    ctx: Env,
    l: Locals,
    e: ParsedExpression,
    in_loop: bool,
    hint: Option<TypeView>,
    v: i64,
)
    requires
        e.value == ParsedExpressionKind::Literal(ParsedLiteral::Integer(v)),
    ensures
        spec_analyze(ctx, l, e, in_loop, hint).0 is Ok,
        spec_analyze(ctx, l, e, in_loop, hint).1 == l,
        spec_analyze(ctx, l, e, in_loop, hint).0->Ok_0.ty == (if -2147483648 <= v <= 2147483647 {
            TypeView::Integer(4)
        } else {
            TypeView::Integer(8)
        }),
{
    reveal_with_fuel(spec_analyze, 1);
}

/// Once the `break`s of a loop are required to have a type, every `break` that is
/// accepted has that type: the type the check ends with is the required one.
pub proof fn law_required_break_type_kept(t: TypeView, e: ExprView)
    ensures
        spec_break_type(Some(t), e) is Ok ==> spec_break_type(Some(t), e) == Ok::<
            Option<TypeView>,
            ErrorView,
        >(Some(t)),
    decreases e, 1nat,
{
    match e.kind {
        KindView::Block { expressions, .. } => {
            lemma_seq_break_type_kept(t, expressions, expressions.len());
        },
        KindView::Return(x) => match x {
            Some(b) => law_required_break_type_kept(t, *b),
            None => {},
        },
        KindView::If { condition, then_block, else_expr } => {
            law_required_break_type_kept(t, *condition);
            law_required_break_type_kept(t, *then_block);
            match else_expr {
                Some(x) => law_required_break_type_kept(t, *x),
                None => {},
            }
        },
        KindView::Loop { init, else_expr, .. } => {
            match init {
                Some(x) => law_required_break_type_kept(t, *x),
                None => {},
            }
            match else_expr {
                Some(x) => law_required_break_type_kept(t, *x),
                None => {},
            }
        },
        KindView::Declaration { value, .. } => law_required_break_type_kept(t, *value),
        KindView::ValueOfAssignable(a) => lemma_assignable_break_type_kept(t, a),
        KindView::StructInstance { fields } => lemma_fields_break_type_kept(t, fields, fields.len()),
        KindView::Unary { expr, .. } => law_required_break_type_kept(t, *expr),
        KindView::Binary { left, right, .. } => {
            law_required_break_type_kept(t, *left);
            law_required_break_type_kept(t, *right);
        },
        KindView::Assign { lhs, rhs, .. } => {
            lemma_assignable_break_type_kept(t, lhs);
            law_required_break_type_kept(t, *rhs);
        },
        KindView::Borrow { expr } => lemma_assignable_break_type_kept(t, expr),
        KindView::FunctionCall { call_type, args } => {
            match call_type {
                crate::analyzed_expression::CallTypeView::FunctionPointer(inner) => {
                    law_required_break_type_kept(t, *inner);
                },
                _ => {},
            }
            lemma_seq_break_type_kept(t, args, args.len());
        },
        KindView::FieldAccess { expr, .. } => law_required_break_type_kept(t, *expr),
        KindView::Increment(a, _) => lemma_assignable_break_type_kept(t, a),
        KindView::Decrement(a, _) => lemma_assignable_break_type_kept(t, a),
        _ => {},
    }
}

proof fn lemma_assignable_break_type_kept(t: TypeView, a: AssignableView)
    ensures
        spec_break_type_assignable(Some(t), a) is Ok ==> spec_break_type_assignable(Some(t), a)
            == Ok::<Option<TypeView>, ErrorView>(Some(t)),
    decreases a, 1nat,
{
    match a.kind {
        crate::analyzed_expression::AssignableKindView::Dereference(e) => law_required_break_type_kept(t, *e),
        crate::analyzed_expression::AssignableKindView::FieldAccess(inner, _) => lemma_assignable_break_type_kept(
            t,
            *inner,
        ),
        crate::analyzed_expression::AssignableKindView::PointerFieldAccess(e, _, _) => law_required_break_type_kept(
            t,
            *e,
        ),
        crate::analyzed_expression::AssignableKindView::ArrayIndex(arr, index) => {
            law_required_break_type_kept(t, *arr);
            law_required_break_type_kept(t, *index);
        },
        _ => {},
    }
}

proof fn lemma_seq_break_type_kept(t: TypeView, s: Seq<ExprView>, n: nat)
    ensures
        spec_break_type_seq(Some(t), s, n) is Ok ==> spec_break_type_seq(Some(t), s, n) == Ok::<
            Option<TypeView>,
            ErrorView,
        >(Some(t)),
    decreases s, n,
{
    if n > 0 && n <= s.len() {
        lemma_seq_break_type_kept(t, s, (n - 1) as nat);
        law_required_break_type_kept(t, s[n - 1]);
    }
}

proof fn lemma_fields_break_type_kept(t: TypeView, s: Seq<(Seq<char>, ExprView)>, n: nat)
    ensures
        spec_break_type_fields(Some(t), s, n) is Ok ==> spec_break_type_fields(Some(t), s, n)
            == Ok::<Option<TypeView>, ErrorView>(Some(t)),
    decreases s, n,
{
    if n > 0 && n <= s.len() {
        lemma_fields_break_type_kept(t, s, (n - 1) as nat);
        law_required_break_type_kept(t, s[n - 1].1);
    }
}

/// A loop with a condition that passes its checks has the type of its `else` branch, or
/// unit when it has none.
pub proof fn law_conditional_loop_type(
    loc: crate::location::Location,
    init: Option<Box<ExprView>>,
    condition: ExprView,
    step: Option<Box<ExprView>>,
    body: ExprView,
    else_expr: Option<Box<ExprView>>,
    l: Locals,
)
    requires
        spec_finish_loop(loc, init, Some(Box::new(condition)), step, body, else_expr, l).0 is Ok,
    ensures
        spec_finish_loop(loc, init, Some(Box::new(condition)), step, body, else_expr, l).0->Ok_0.ty
            == opt_type(else_expr),
{
    let else_ty = match else_expr {
        Some(x) => Some(x.ty),
        None => None,
    };
    law_required_break_type_kept(required_break_type(true, else_ty).unwrap(), body);
}

/// Replacing generic parameters when there are none leaves a type as it is.
pub proof fn law_resolve_without_generics(t: TypeView, args: Seq<TypeView>)
    ensures
        spec_resolve_generic_type(t, Seq::<GenericId>::empty(), args) == t,
    decreases t, 1nat,
{
    match t {
        TypeView::Pointer(inner) => law_resolve_without_generics(*inner, args),
        TypeView::StructType(_, gs) => lemma_resolve_all_without_generics(gs, args),
        TypeView::FunctionType(ret, ps) => {
            law_resolve_without_generics(*ret, args);
            lemma_resolve_all_without_generics(ps, args);
        },
        _ => {},
    }
}

proof fn lemma_resolve_all_without_generics(s: Seq<TypeView>, args: Seq<TypeView>)
    ensures
        spec_resolve_all(s, Seq::<GenericId>::empty(), args) == s,
    decreases s, 0nat,
{
    if s.len() > 0 {
        law_resolve_without_generics(s[0], args);
        lemma_resolve_all_without_generics(s.subrange(1, s.len() as int), args);
        assert(spec_resolve_all(s, Seq::<GenericId>::empty(), args) =~= s);
    }
}

/// An expression that is analyzed without error keeps the place where it was written.
#[verifier::rlimit(100)]
pub proof fn law_analysis_keeps_location(
    ctx: Env,
    l: Locals,
    e: ParsedExpression,
    in_loop: bool,
    hint: Option<TypeView>,
)
    requires
        spec_analyze(ctx, l, e, in_loop, hint).0 is Ok,
    ensures
        spec_analyze(ctx, l, e, in_loop, hint).0->Ok_0.location == e.location,
{
    reveal_with_fuel(spec_analyze, 1);
    match e.value {
        ParsedExpressionKind::Block { .. } => {
            reveal_with_fuel(spec_analyze_block, 1);
            assert(spec_analyze(ctx, l, e, in_loop, hint).0->Ok_0.location == e.location);
        },
        ParsedExpressionKind::If { .. } => {
            reveal_with_fuel(crate::analysis_spec::spec_analyze_if, 1);
            assert(spec_analyze(ctx, l, e, in_loop, hint).0->Ok_0.location == e.location);
        },
        ParsedExpressionKind::Loop { .. } => {
            reveal_with_fuel(spec_analyze_loop, 1);
            assert(spec_analyze(ctx, l, e, in_loop, hint).0->Ok_0.location == e.location);
        },
        ParsedExpressionKind::Declaration { .. } => {
            reveal_with_fuel(crate::analysis_spec::spec_analyze_declaration, 1);
            assert(spec_analyze(ctx, l, e, in_loop, hint).0->Ok_0.location == e.location);
        },
        ParsedExpressionKind::StructInstance { .. } => {
            reveal_with_fuel(crate::analysis_spec::spec_analyze_struct_instance, 1);
            assert(spec_analyze(ctx, l, e, in_loop, hint).0->Ok_0.location == e.location);
        },
        ParsedExpressionKind::Unary { .. } => {
            reveal_with_fuel(crate::analysis_spec::spec_analyze_unary, 1);
            assert(spec_analyze(ctx, l, e, in_loop, hint).0->Ok_0.location == e.location);
        },
        ParsedExpressionKind::Binary { op, .. } => {
            reveal_with_fuel(crate::analysis_spec::spec_analyze_binary, 1);
            assert(spec_analyze(ctx, l, e, in_loop, hint) == crate::analysis_spec::spec_analyze_binary(
                ctx,
                l,
                e,
                in_loop,
            ));
            if op == crate::parsed_expression::BinaryOp::Assign || op is MathAssign || op is LogicAssign {
                reveal_with_fuel(crate::analysis_spec::spec_analyze_assignment, 1);
                assert(crate::analysis_spec::spec_analyze_assignment(ctx, l, e, in_loop).0->Ok_0.location
                    == e.location);
            } else {
                reveal_with_fuel(crate::analysis_spec::spec_analyze_operation, 1);
                assert(crate::analysis_spec::spec_analyze_operation(ctx, l, e, in_loop).0->Ok_0.location
                    == e.location);
            }
        },
        ParsedExpressionKind::FunctionCall { .. } => {
            reveal_with_fuel(crate::analysis_spec::spec_analyze_call, 1);
            assert(spec_analyze(ctx, l, e, in_loop, hint).0->Ok_0.location == e.location);
        },
        ParsedExpressionKind::Tuple(_) => {
            reveal_with_fuel(crate::analysis_spec::spec_analyze_tuple, 1);
            assert(spec_analyze(ctx, l, e, in_loop, hint).0->Ok_0.location == e.location);
        },
        ParsedExpressionKind::Return(_) => {
            assert(spec_analyze(ctx, l, e, in_loop, hint).0->Ok_0.location == e.location);
        },
        ParsedExpressionKind::Break(_) => {
            assert(spec_analyze(ctx, l, e, in_loop, hint).0->Ok_0.location == e.location);
        },
        ParsedExpressionKind::Continue => {
            assert(spec_analyze(ctx, l, e, in_loop, hint).0->Ok_0.location == e.location);
        },
        ParsedExpressionKind::Variable(_) => {
            assert(spec_analyze(ctx, l, e, in_loop, hint).0->Ok_0.location == e.location);
        },
        ParsedExpressionKind::Literal(_) => {
            assert(spec_analyze(ctx, l, e, in_loop, hint).0->Ok_0.location == e.location);
        },
        ParsedExpressionKind::Sizeof(_) => {
            assert(spec_analyze(ctx, l, e, in_loop, hint).0->Ok_0.location == e.location);
        },
    }
}

} // verus!
