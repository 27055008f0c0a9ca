use vstd::prelude::*;
use crate::analysis_spec::{
    opt_type, spec_break_type, spec_break_type_assignable, spec_break_type_fields,
    spec_break_type_seq,
};
use crate::analyzed_expression::{AssignableKindView, AssignableView, CallTypeView, ExprView, KindView};
use crate::analyzed_type::TypeView;
use crate::analyzer_error::ErrorView;

verus! {

/// The outcome of checking `break`s, as a function of the type required so far.
pub type BreakOutcome = Result<Option<TypeView>, ErrorView>;

/// A check of `break`s behaves like a sequence of `break`s of fixed types:
/// - a required type that passes is kept;
/// - a type found is also accepted when it is required from the start;
/// - when nothing is found without a requirement, the check passes any requirement through.
pub open spec fn consistent_check(f: spec_fn(Option<TypeView>) -> BreakOutcome) -> bool {
    &&& forall|t: TypeView| #[trigger] f(Some(t)) is Ok ==> f(Some(t)) == Ok::<Option<TypeView>, ErrorView>(Some(t))
    &&& forall|b: Option<TypeView>|
        #[trigger] f(b) is Ok && f(b)->Ok_0 is Some ==> f(Some(f(b)->Ok_0->Some_0)) == f(b)
    &&& f(None) == Ok::<Option<TypeView>, ErrorView>(None) ==> forall|x: Option<TypeView>|
        #[trigger] f(x) == Ok::<Option<TypeView>, ErrorView>(x)
}

/// One check followed by another, stopping at the first error.
pub open spec fn then_check(
    f: spec_fn(Option<TypeView>) -> BreakOutcome,
    g: spec_fn(Option<TypeView>) -> BreakOutcome,
) -> spec_fn(Option<TypeView>) -> BreakOutcome {
    |b: Option<TypeView>| match f(b) {
        Err(err) => Err(err),
        Ok(b1) => g(b1),
    }
}

pub open spec fn pass_check() -> spec_fn(Option<TypeView>) -> BreakOutcome {
    |b: Option<TypeView>| Ok(b)
}

proof fn lemma_pass_consistent()
    ensures
        consistent_check(pass_check()),
{
}

proof fn lemma_then_consistent(
    f: spec_fn(Option<TypeView>) -> BreakOutcome,
    g: spec_fn(Option<TypeView>) -> BreakOutcome,
)
    requires
        consistent_check(f),
        consistent_check(g),
    ensures
        consistent_check(then_check(f, g)),
{
    let h = then_check(f, g);
    assert forall|t: TypeView| #[trigger] h(Some(t)) is Ok implies h(Some(t)) == Ok::<
        Option<TypeView>,
        ErrorView,
    >(Some(t)) by {
        assert(f(Some(t)) is Ok);
        assert(g(Some(t)) is Ok);
    }
    assert forall|b: Option<TypeView>| #[trigger] h(b) is Ok && h(b)->Ok_0 is Some implies h(
        Some(h(b)->Ok_0->Some_0),
    ) == h(b) by {
        let u = h(b)->Ok_0->Some_0;
        let b1 = f(b)->Ok_0;
        assert(f(b) is Ok);
        assert(g(b1) == h(b));
        assert(g(Some(u)) == h(b));
        match b1 {
            Some(v) => {
                assert(f(Some(v)) == f(b));
                assert(g(Some(v)) is Ok);
                assert(v == u);
            },
            None => {
                match b {
                    Some(w) => {
                        assert(f(Some(w)) is Ok);
                        assert(false);
                    },
                    None => {
                        assert(f(Some(u)) == Ok::<Option<TypeView>, ErrorView>(Some(u)));
                    },
                }
            },
        }
    }
    if h(None) == Ok::<Option<TypeView>, ErrorView>(None) {
        assert(f(None) is Ok);
        let b1 = f(None)->Ok_0;
        match b1 {
            Some(v) => {
                assert(g(Some(v)) is Ok);
                assert(false);
            },
            None => {},
        }
        assert forall|x: Option<TypeView>| #[trigger] h(x) == Ok::<Option<TypeView>, ErrorView>(x) by {
            assert(f(x) == Ok::<Option<TypeView>, ErrorView>(x));
            assert(g(x) == Ok::<Option<TypeView>, ErrorView>(x));
        }
    }
}

pub open spec fn expr_check(e: ExprView) -> spec_fn(Option<TypeView>) -> BreakOutcome {
    |b: Option<TypeView>| spec_break_type(b, e)
}

pub open spec fn assignable_check(a: AssignableView) -> spec_fn(Option<TypeView>) -> BreakOutcome {
    |b: Option<TypeView>| spec_break_type_assignable(b, a)
}

pub open spec fn seq_check(s: Seq<ExprView>, n: nat) -> spec_fn(Option<TypeView>) -> BreakOutcome {
    |b: Option<TypeView>| spec_break_type_seq(b, s, n)
}

pub open spec fn fields_check(s: Seq<(Seq<char>, ExprView)>, n: nat) -> spec_fn(Option<TypeView>) -> BreakOutcome {
    |b: Option<TypeView>| spec_break_type_fields(b, s, n)
}

pub open spec fn opt_check(x: Option<Box<ExprView>>) -> spec_fn(Option<TypeView>) -> BreakOutcome {
    match x {
        Some(e) => expr_check(*e),
        None => pass_check(),
    }
}

proof fn lemma_opt_consistent(x: Option<Box<ExprView>>)
    ensures
        consistent_check(opt_check(x)),
    decreases x, 2nat,
{
    match x {
        Some(e) => lemma_expr_consistent(*e),
        None => lemma_pass_consistent(),
    }
}

proof fn lemma_expr_consistent(e: ExprView)
    ensures
        consistent_check(expr_check(e)),
    decreases e, 1nat,
{
    let f = expr_check(e);
    match e.kind {
        KindView::Block { expressions, .. } => {
            lemma_seq_consistent(expressions, expressions.len());
            assert(f =~= seq_check(expressions, expressions.len()));
        },
        KindView::Return(x) => {
            lemma_opt_consistent(x);
            assert(f =~= opt_check(x));
        },
        KindView::Break(x) => {
            let t = opt_type(x);
            assert forall|s: TypeView| #[trigger] f(Some(s)) is Ok implies f(Some(s)) == Ok::<
                Option<TypeView>,
                ErrorView,
            >(Some(s)) by {
                assert(s == t);
            }
            assert forall|b: Option<TypeView>| #[trigger] f(b) is Ok && f(b)->Ok_0 is Some implies f(
                Some(f(b)->Ok_0->Some_0),
            ) == f(b) by {
                assert(f(b) == Ok::<Option<TypeView>, ErrorView>(Some(t)));
            }
        },
        KindView::If { condition, then_block, else_expr } => {
            lemma_expr_consistent(*condition);
            lemma_expr_consistent(*then_block);
            lemma_opt_consistent(else_expr);
            let g = then_check(expr_check(*condition), then_check(expr_check(*then_block), opt_check(else_expr)));
            lemma_then_consistent(expr_check(*then_block), opt_check(else_expr));
            lemma_then_consistent(expr_check(*condition), then_check(expr_check(*then_block), opt_check(else_expr)));
            assert(f =~= g);
        },
        KindView::Loop { init, else_expr, .. } => {
            lemma_opt_consistent(init);
            lemma_opt_consistent(else_expr);
            lemma_then_consistent(opt_check(init), opt_check(else_expr));
            assert(f =~= then_check(opt_check(init), opt_check(else_expr)));
        },
        KindView::Declaration { value, .. } => {
            lemma_expr_consistent(*value);
            assert(f =~= expr_check(*value));
        },
        KindView::ValueOfAssignable(a) => {
            lemma_assignable_consistent(a);
            assert(f =~= assignable_check(a));
        },
        KindView::StructInstance { fields } => {
            lemma_fields_consistent(fields, fields.len());
            assert(f =~= fields_check(fields, fields.len()));
        },
        KindView::Unary { expr, .. } => {
            lemma_expr_consistent(*expr);
            assert(f =~= expr_check(*expr));
        },
        KindView::Binary { left, right, .. } => {
            lemma_expr_consistent(*left);
            lemma_expr_consistent(*right);
            lemma_then_consistent(expr_check(*left), expr_check(*right));
            assert(f =~= then_check(expr_check(*left), expr_check(*right)));
        },
        KindView::Assign { lhs, rhs, .. } => {
            lemma_assignable_consistent(lhs);
            lemma_expr_consistent(*rhs);
            lemma_then_consistent(assignable_check(lhs), expr_check(*rhs));
            assert(f =~= then_check(assignable_check(lhs), expr_check(*rhs)));
        },
        KindView::Borrow { expr } => {
            lemma_assignable_consistent(expr);
            assert(f =~= assignable_check(expr));
        },
        KindView::FunctionCall { call_type, args } => {
            let first = match call_type {
                CallTypeView::Function(_) => pass_check(),
                CallTypeView::FunctionPointer(inner) => expr_check(*inner),
            };
            match call_type {
                CallTypeView::Function(_) => lemma_pass_consistent(),
                CallTypeView::FunctionPointer(inner) => lemma_expr_consistent(*inner),
            }
            lemma_seq_consistent(args, args.len());
            lemma_then_consistent(first, seq_check(args, args.len()));
            assert(f =~= then_check(first, seq_check(args, args.len())));
        },
        KindView::FieldAccess { expr, .. } => {
            lemma_expr_consistent(*expr);
            assert(f =~= expr_check(*expr));
        },
        KindView::Increment(a, _) => {
            lemma_assignable_consistent(a);
            assert(f =~= assignable_check(a));
        },
        KindView::Decrement(a, _) => {
            lemma_assignable_consistent(a);
            assert(f =~= assignable_check(a));
        },
        _ => {
            assert(f =~= pass_check());
        },
    }
}

proof fn lemma_assignable_consistent(a: AssignableView)
    ensures
        consistent_check(assignable_check(a)),
    decreases a, 1nat,
{
    let f = assignable_check(a);
    match a.kind {
        AssignableKindView::LocalVariable(_) => {
            assert(f =~= pass_check());
        },
        AssignableKindView::Dereference(e) => {
            lemma_expr_consistent(*e);
            assert(f =~= expr_check(*e));
        },
        AssignableKindView::FieldAccess(inner, _) => {
            lemma_assignable_consistent(*inner);
            assert(f =~= assignable_check(*inner));
        },
        AssignableKindView::PointerFieldAccess(e, _, _) => {
            lemma_expr_consistent(*e);
            assert(f =~= expr_check(*e));
        },
        AssignableKindView::ArrayIndex(arr, index) => {
            lemma_expr_consistent(*arr);
            lemma_expr_consistent(*index);
            lemma_then_consistent(expr_check(*arr), expr_check(*index));
            assert(f =~= then_check(expr_check(*arr), expr_check(*index)));
        },
    }
}

proof fn lemma_seq_consistent(s: Seq<ExprView>, n: nat)
    ensures
        consistent_check(seq_check(s, n)),
    decreases s, n,
{
    let f = seq_check(s, n);
    if n == 0 || n > s.len() {
        assert(f =~= pass_check());
    } else {
        lemma_seq_consistent(s, (n - 1) as nat);
        lemma_expr_consistent(s[n - 1]);
        lemma_then_consistent(seq_check(s, (n - 1) as nat), expr_check(s[n - 1]));
        assert(f =~= then_check(seq_check(s, (n - 1) as nat), expr_check(s[n - 1])));
    }
}

proof fn lemma_fields_consistent(s: Seq<(Seq<char>, ExprView)>, n: nat)
    ensures
        consistent_check(fields_check(s, n)),
    decreases s, n,
{
    let f = fields_check(s, n);
    if n == 0 || n > s.len() {
        assert(f =~= pass_check());
    } else {
        lemma_fields_consistent(s, (n - 1) as nat);
        lemma_expr_consistent(s[n - 1].1);
        lemma_then_consistent(fields_check(s, (n - 1) as nat), expr_check(s[n - 1].1));
        assert(f =~= then_check(fields_check(s, (n - 1) as nat), expr_check(s[n - 1].1)));
    }
}

/// The type that the `break`s of an expression are found to have when none is required
/// is also accepted when it is required from the start: checking again against it gives
/// it back.
pub proof fn law_found_break_type_accepted(e: ExprView, u: TypeView)
    requires
        spec_break_type(None, e) == Ok::<Option<TypeView>, ErrorView>(Some(u)),
    ensures
        spec_break_type(Some(u), e) == Ok::<Option<TypeView>, ErrorView>(Some(u)),
{
    lemma_expr_consistent(e);
    let f = expr_check(e);
    assert(f(None) == spec_break_type(None, e));
    assert(f(Some(u)) == spec_break_type(Some(u), e));
}

/// An expression whose check finds no `break` without a requirement has no `break` that
/// could disagree with one: any required type passes through unchanged.
pub proof fn law_no_break_passes_requirement(e: ExprView, t: Option<TypeView>)
    requires
        spec_break_type(None, e) == Ok::<Option<TypeView>, ErrorView>(None),
    ensures
        spec_break_type(t, e) == Ok::<Option<TypeView>, ErrorView>(t),
{
    lemma_expr_consistent(e);
    let f = expr_check(e);
    assert(f(None) == spec_break_type(None, e));
    assert(f(t) == spec_break_type(t, e));
}

} // verus!
