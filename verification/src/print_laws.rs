use vstd::prelude::*;
use crate::analyzed_expression::{AssignableKindView, AssignableView, CallTypeView, ExprView, KindView};
use crate::analyzed_print_spec::{
    assignable_lines, control_lines, expr_lines, exprs_lines, fields_lines, kind_lines, opt_lines,
    operator_lines, value_lines, PrintedLine,
};
use crate::analyzed_text::type_text;
use crate::parsed_expression::{ParsedExpression, ParsedExpressionKind};
use crate::parsed_program::ParsedModule;
use crate::parsed_text::path_text;
use crate::parsed_text::generic_id_text;
use crate::tree_print_spec::{
    aliases_lines, enum_lines, functions_lines, module_lines, signature_lines, signatures_lines, struct_lines,
    trait_definition_lines, trait_impl_lines, tree_all_lines, tree_fields_lines, tree_lines, tree_opt_lines,
};
use crate::parsed_program::{
    ParsedEnumDefinition, ParsedFunctionSignature, ParsedStructDefinition, ParsedTraitDefinition,
    ParsedTraitImplementation,
};
use crate::parsed_text::{name_list_text, parsed_type_text};
use crate::text::{bool_text, int_text};
use crate::analyzed_text::{assign_op_text, binary_op_text, literal_text, unary_op_text};
use crate::parsed_text::{parsed_binary_text, parsed_literal_text, parsed_unary_text};

verus! {

/// Every line is at level `k` or deeper.
pub open spec fn all_at_least(lines: Seq<PrintedLine>, k: nat) -> bool {
    forall|i: int| 0 <= i < lines.len() ==> (#[trigger] lines[i]).0 >= k
}

proof fn lemma_join_at_least(a: Seq<PrintedLine>, b: Seq<PrintedLine>, k: nat)
    requires
        all_at_least(a, k),
        all_at_least(b, k),
    ensures
        all_at_least(a + b, k),
{
    assert forall|i: int| 0 <= i < (a + b).len() implies (#[trigger] (a + b)[i]).0 >= k by {
        if i < a.len() {
            assert((a + b)[i] == a[i]);
        } else {
            assert((a + b)[i] == b[i - a.len()]);
        }
    }
}

proof fn lemma_deeper_at_least(a: Seq<PrintedLine>, k: nat)
    requires
        all_at_least(a, k + 1),
    ensures
        all_at_least(a, k),
{
    assert forall|i: int| 0 <= i < a.len() implies (#[trigger] a[i]).0 >= k by {
        assert(a[i].0 >= k + 1);
    }
}

proof fn lemma_expr_lines_at_least(e: ExprView, k: nat)
    ensures
        all_at_least(expr_lines(e, k), k),
    decreases e, 3nat,
{
    lemma_kind_lines_at_least(e.kind, k);
    lemma_join_at_least(seq![(k, "Expr type: "@ + type_text(e.ty))], kind_lines(e.kind, k), k);
}

proof fn lemma_kind_lines_at_least(kind: KindView, k: nat)
    ensures
        all_at_least(kind_lines(kind, k), k),
    decreases kind, 2nat,
{
    match kind {
        KindView::Block { .. } | KindView::Return(..) | KindView::Continue | KindView::Break(..)
        | KindView::If { .. } | KindView::Loop { .. } => lemma_control_lines_at_least(kind, k),
        KindView::Declaration { .. } | KindView::ValueOfAssignable(..) | KindView::StructInstance { .. }
        | KindView::Literal(..) | KindView::ConstantPointer(..) | KindView::Sizeof(..)
        | KindView::FunctionPointer(..) => lemma_value_lines_at_least(kind, k),
        _ => lemma_operator_lines_at_least(kind, k),
    }
}

proof fn lemma_opt_lines_at_least(x: Option<Box<ExprView>>, k: nat)
    ensures
        all_at_least(opt_lines(x, k), k),
    decreases x, 4nat,
{
    match x {
        Some(b) => lemma_expr_lines_at_least(*b, k),
        None => {},
    }
}

proof fn lemma_exprs_lines_at_least(s: Seq<ExprView>, k: nat)
    ensures
        all_at_least(exprs_lines(s, k), k),
    decreases s, 0nat,
{
    if s.len() > 0 {
        lemma_exprs_lines_at_least(s.drop_last(), k);
        lemma_expr_lines_at_least(s.last(), k);
        lemma_join_at_least(exprs_lines(s.drop_last(), k), expr_lines(s.last(), k), k);
    }
}

proof fn lemma_fields_lines_at_least(s: Seq<(Seq<char>, ExprView)>, k: nat)
    ensures
        all_at_least(fields_lines(s, k), k),
    decreases s, 0nat,
{
    if s.len() > 0 {
        lemma_fields_lines_at_least(s.drop_last(), k);
        lemma_expr_lines_at_least(s.last().1, k);
        lemma_join_at_least(fields_lines(s.drop_last(), k), seq![(k, s.last().0 + ": "@)], k);
        lemma_join_at_least(
            fields_lines(s.drop_last(), k) + seq![(k, s.last().0 + ": "@)],
            expr_lines(s.last().1, k),
            k,
        );
    }
}

proof fn lemma_assignable_lines_at_least(a: AssignableView, k: nat)
    ensures
        all_at_least(assignable_lines(a, k), k),
    decreases a, 3nat,
{
    let j = k + 1;
    match a.kind {
        AssignableKindView::LocalVariable(_) => {},
        AssignableKindView::Dereference(e) => {
            lemma_expr_lines_at_least(*e, j);
            lemma_deeper_at_least(expr_lines(*e, j), k);
            lemma_join_at_least(seq![(k, "Dereference"@)], expr_lines(*e, j), k);
        },
        AssignableKindView::FieldAccess(inner, field) => {
            lemma_assignable_lines_at_least(*inner, j);
            lemma_deeper_at_least(assignable_lines(*inner, j), k);
            lemma_join_at_least(seq![(k, "FieldAccess("@ + field + ")"@)], assignable_lines(*inner, j), k);
        },
        AssignableKindView::PointerFieldAccess(e, _, _) => {
            lemma_expr_lines_at_least(*e, j);
            lemma_deeper_at_least(expr_lines(*e, j), k);
            let first = assignable_lines(a, k).take(1);
            assert(assignable_lines(a, k) =~= first + expr_lines(*e, j));
            lemma_join_at_least(first, expr_lines(*e, j), k);
        },
        AssignableKindView::ArrayIndex(arr, index) => {
            lemma_expr_lines_at_least(*arr, j);
            lemma_expr_lines_at_least(*index, j);
            lemma_deeper_at_least(expr_lines(*arr, j), k);
            lemma_deeper_at_least(expr_lines(*index, j), k);
            lemma_join_at_least(seq![(k, "ArrayIndex"@)], expr_lines(*arr, j), k);
            lemma_join_at_least(seq![(k, "ArrayIndex"@)] + expr_lines(*arr, j), expr_lines(*index, j), k);
        },
    }
}

/// All lines of the parts printed one level deeper than `k` are at level `k` or deeper,
/// and so are the lines around them at level `k`.
proof fn lemma_wrap_at_least(head: PrintedLine, parts: Seq<PrintedLine>, tail: Seq<PrintedLine>, k: nat)
    requires
        head.0 == k,
        all_at_least(parts, k),
        all_at_least(tail, k),
    ensures
        all_at_least(seq![head] + parts + tail, k),
{
    lemma_join_at_least(seq![head], parts, k);
    lemma_join_at_least(seq![head] + parts, tail, k);
}

proof fn lemma_control_lines_at_least(kind: KindView, k: nat)
    ensures
        all_at_least(control_lines(kind, k), k),
    decreases kind, 1nat,
{
    let j = k + 1;
    let lines = control_lines(kind, k);
    let close = seq![(k, "}"@)];
    match kind {
        KindView::Block { expressions, .. } => {
            lemma_exprs_lines_at_least(expressions, j);
            lemma_deeper_at_least(exprs_lines(expressions, j), k);
            lemma_wrap_at_least(lines[0], exprs_lines(expressions, j), close, k);
            assert(lines =~= seq![lines[0]] + exprs_lines(expressions, j) + close);
        },
        KindView::Return(x) => {
            lemma_opt_lines_at_least(x, j);
            lemma_deeper_at_least(opt_lines(x, j), k);
            lemma_wrap_at_least(lines[0], opt_lines(x, j), close, k);
            assert(lines =~= seq![lines[0]] + opt_lines(x, j) + close);
        },
        KindView::Break(x) => {
            lemma_opt_lines_at_least(x, j);
            lemma_deeper_at_least(opt_lines(x, j), k);
            lemma_wrap_at_least(lines[0], opt_lines(x, j), close, k);
            assert(lines =~= seq![lines[0]] + opt_lines(x, j) + close);
        },
        KindView::If { condition, then_block, else_expr } => {
            lemma_expr_lines_at_least(*condition, j);
            lemma_expr_lines_at_least(*then_block, j);
            lemma_opt_lines_at_least(else_expr, j);
            let parts = expr_lines(*condition, j) + expr_lines(*then_block, j) + opt_lines(else_expr, j);
            lemma_join_at_least(expr_lines(*condition, j), expr_lines(*then_block, j), j);
            lemma_join_at_least(expr_lines(*condition, j) + expr_lines(*then_block, j), opt_lines(else_expr, j), j);
            lemma_deeper_at_least(parts, k);
            lemma_wrap_at_least(lines[0], parts, close, k);
            assert(lines =~= seq![lines[0]] + parts + close);
        },
        KindView::Loop { init, condition, step, loop_body, else_expr } => {
            lemma_opt_lines_at_least(init, j);
            lemma_opt_lines_at_least(condition, j);
            lemma_opt_lines_at_least(step, j);
            lemma_expr_lines_at_least(*loop_body, j);
            lemma_opt_lines_at_least(else_expr, j);
            let p1 = opt_lines(init, j) + opt_lines(condition, j);
            let p2 = p1 + opt_lines(step, j);
            let p3 = p2 + expr_lines(*loop_body, j);
            let parts = p3 + opt_lines(else_expr, j);
            lemma_join_at_least(opt_lines(init, j), opt_lines(condition, j), j);
            lemma_join_at_least(p1, opt_lines(step, j), j);
            lemma_join_at_least(p2, expr_lines(*loop_body, j), j);
            lemma_join_at_least(p3, opt_lines(else_expr, j), j);
            lemma_deeper_at_least(parts, k);
            lemma_wrap_at_least(lines[0], parts, close, k);
            assert(lines =~= seq![lines[0]] + parts + close);
        },
        _ => {},
    }
}

proof fn lemma_value_lines_at_least(kind: KindView, k: nat)
    ensures
        all_at_least(value_lines(kind, k), k),
    decreases kind, 1nat,
{
    let j = k + 1;
    let lines = value_lines(kind, k);
    let none = Seq::<PrintedLine>::empty();
    match kind {
        KindView::Declaration { value, .. } => {
            lemma_expr_lines_at_least(*value, j);
            lemma_deeper_at_least(expr_lines(*value, j), k);
            lemma_wrap_at_least(lines[0], expr_lines(*value, j), none, k);
            assert(lines =~= seq![lines[0]] + expr_lines(*value, j) + none);
        },
        KindView::ValueOfAssignable(a) => {
            lemma_assignable_lines_at_least(a, j);
            lemma_deeper_at_least(assignable_lines(a, j), k);
            lemma_wrap_at_least(lines[0], assignable_lines(a, j), none, k);
            assert(lines =~= seq![lines[0]] + assignable_lines(a, j) + none);
        },
        KindView::StructInstance { fields } => {
            lemma_fields_lines_at_least(fields, j);
            lemma_deeper_at_least(fields_lines(fields, j), k);
            lemma_wrap_at_least(lines[0], fields_lines(fields, j), none, k);
            assert(lines =~= seq![lines[0]] + fields_lines(fields, j) + none);
        },
        _ => {},
    }
}

proof fn lemma_operator_lines_at_least(kind: KindView, k: nat)
    ensures
        all_at_least(operator_lines(kind, k), k),
    decreases kind, 1nat,
{
    let j = k + 1;
    let lines = operator_lines(kind, k);
    let none = Seq::<PrintedLine>::empty();
    match kind {
        KindView::Unary { expr, .. } => {
            lemma_expr_lines_at_least(*expr, j);
            lemma_deeper_at_least(expr_lines(*expr, j), k);
            lemma_wrap_at_least(lines[0], expr_lines(*expr, j), none, k);
            assert(lines =~= seq![lines[0]] + expr_lines(*expr, j) + none);
        },
        KindView::Binary { left, right, .. } => {
            lemma_expr_lines_at_least(*left, j);
            lemma_expr_lines_at_least(*right, j);
            let parts = expr_lines(*left, j) + expr_lines(*right, j);
            lemma_join_at_least(expr_lines(*left, j), expr_lines(*right, j), j);
            lemma_deeper_at_least(parts, k);
            lemma_wrap_at_least(lines[0], parts, none, k);
            assert(lines =~= seq![lines[0]] + parts + none);
        },
        KindView::Assign { lhs, rhs, .. } => {
            lemma_assignable_lines_at_least(lhs, j);
            lemma_expr_lines_at_least(*rhs, j);
            let parts = assignable_lines(lhs, j) + expr_lines(*rhs, j);
            lemma_join_at_least(assignable_lines(lhs, j), expr_lines(*rhs, j), j);
            lemma_deeper_at_least(parts, k);
            lemma_wrap_at_least(lines[0], parts, none, k);
            assert(lines =~= seq![lines[0]] + parts + none);
        },
        KindView::Borrow { expr } => {
            lemma_assignable_lines_at_least(expr, j);
            lemma_deeper_at_least(assignable_lines(expr, j), k);
            lemma_wrap_at_least(lines[0], assignable_lines(expr, j), none, k);
            assert(lines =~= seq![lines[0]] + assignable_lines(expr, j) + none);
        },
        KindView::FunctionCall { call_type, args } => {
            let callee = match call_type {
                CallTypeView::Function(f) => seq![(j, "Function("@ + crate::analyzed_text::function_ref_text(f) + ")"@)],
                CallTypeView::FunctionPointer(inner) => expr_lines(*inner, j),
            };
            match call_type {
                CallTypeView::Function(_) => {},
                CallTypeView::FunctionPointer(inner) => lemma_expr_lines_at_least(*inner, j),
            }
            lemma_exprs_lines_at_least(args, j);
            let parts = callee + exprs_lines(args, j);
            lemma_join_at_least(callee, exprs_lines(args, j), j);
            lemma_deeper_at_least(parts, k);
            lemma_wrap_at_least(lines[0], parts, none, k);
            assert(lines =~= seq![lines[0]] + parts + none);
        },
        KindView::FieldAccess { expr, .. } => {
            lemma_expr_lines_at_least(*expr, j);
            lemma_deeper_at_least(expr_lines(*expr, j), k);
            lemma_wrap_at_least(lines[0], expr_lines(*expr, j), none, k);
            assert(lines =~= seq![lines[0]] + expr_lines(*expr, j) + none);
        },
        KindView::Increment(a, _) => {
            lemma_assignable_lines_at_least(a, j);
            lemma_deeper_at_least(assignable_lines(a, j), k);
            lemma_wrap_at_least(lines[0], assignable_lines(a, j), none, k);
            assert(lines =~= seq![lines[0]] + assignable_lines(a, j) + none);
        },
        KindView::Decrement(a, _) => {
            lemma_assignable_lines_at_least(a, j);
            lemma_deeper_at_least(assignable_lines(a, j), k);
            lemma_wrap_at_least(lines[0], assignable_lines(a, j), none, k);
            assert(lines =~= seq![lines[0]] + assignable_lines(a, j) + none);
        },
        _ => {},
    }
}

/// Printing an analyzed expression at level `k` adds at least two lines, the first
/// giving its type at level `k` and the second naming its kind at level `k`, and no line
/// above level `k`; `continue` prints exactly those two lines.
pub proof fn law_analyzed_lines_start_at_level(e: ExprView, k: nat)
    ensures
        expr_lines(e, k).len() >= 2,
        expr_lines(e, k)[0] == (k, "Expr type: "@ + type_text(e.ty)),
        expr_lines(e, k)[1].0 == k,
        all_at_least(expr_lines(e, k), k),
        e.kind is Continue ==> expr_lines(e, k) == seq![
            (k, "Expr type: "@ + type_text(e.ty)),
            (k, "Continue"@),
        ],
{
    lemma_expr_lines_at_least(e, k);
    assert(kind_lines(e.kind, k).len() >= 1 && kind_lines(e.kind, k)[0].0 == k);
    if e.kind is Continue {
        assert(expr_lines(e, k) =~= seq![(k, "Expr type: "@ + type_text(e.ty)), (k, "Continue"@)]);
    }
}

proof fn lemma_tree_lines_at_least(e: ParsedExpression, k: nat)
    ensures
        tree_lines(e, k).len() >= 1,
        tree_lines(e, k)[0].0 == k,
        all_at_least(tree_lines(e, k), k),
    decreases e, 1nat,
{
    let j = k + 1;
    let lines = tree_lines(e, k);
    let none = Seq::<PrintedLine>::empty();
    match e.value {
        ParsedExpressionKind::StructInstance { fields, .. } => {
            lemma_tree_fields_at_least(fields@, j);
            lemma_deeper_at_least(tree_fields_lines(fields@, j), k);
            lemma_wrap_at_least(lines[0], tree_fields_lines(fields@, j), none, k);
            assert(lines =~= seq![lines[0]] + tree_fields_lines(fields@, j) + none);
        },
        ParsedExpressionKind::Break(x) => {
            lemma_tree_opt_at_least(x, j);
            lemma_deeper_at_least(tree_opt_lines(x, j), k);
            lemma_wrap_at_least(lines[0], tree_opt_lines(x, j), none, k);
            assert(lines =~= seq![lines[0]] + tree_opt_lines(x, j) + none);
        },
        ParsedExpressionKind::Return(x) => {
            lemma_tree_opt_at_least(x, j);
            lemma_deeper_at_least(tree_opt_lines(x, j), k);
            lemma_wrap_at_least(lines[0], tree_opt_lines(x, j), none, k);
            assert(lines =~= seq![lines[0]] + tree_opt_lines(x, j) + none);
        },
        ParsedExpressionKind::Unary { expr, .. } => {
            lemma_tree_lines_at_least(*expr, j);
            lemma_deeper_at_least(tree_lines(*expr, j), k);
            lemma_wrap_at_least(lines[0], tree_lines(*expr, j), none, k);
            assert(lines =~= seq![lines[0]] + tree_lines(*expr, j) + none);
        },
        ParsedExpressionKind::Binary { left, right, .. } => {
            lemma_tree_lines_at_least(*left, j);
            lemma_tree_lines_at_least(*right, j);
            let parts = tree_lines(*left, j) + tree_lines(*right, j);
            lemma_join_at_least(tree_lines(*left, j), tree_lines(*right, j), j);
            lemma_deeper_at_least(parts, k);
            lemma_wrap_at_least(lines[0], parts, none, k);
            assert(lines =~= seq![lines[0]] + parts + none);
        },
        ParsedExpressionKind::Block { expressions, .. } => {
            lemma_tree_all_at_least(expressions@, j);
            lemma_deeper_at_least(tree_all_lines(expressions@, j), k);
            lemma_wrap_at_least(lines[0], tree_all_lines(expressions@, j), seq![(k, "}"@)], k);
            assert(lines =~= seq![lines[0]] + tree_all_lines(expressions@, j) + seq![(k, "}"@)]);
        },
        ParsedExpressionKind::Loop { init, condition, step, loop_body, else_expr } => {
            lemma_tree_opt_at_least(init, j);
            lemma_tree_opt_at_least(condition, j);
            lemma_tree_opt_at_least(step, j);
            lemma_tree_lines_at_least(*loop_body, j);
            lemma_tree_opt_at_least(else_expr, j);
            let p1 = tree_opt_lines(init, j) + tree_opt_lines(condition, j);
            let p2 = p1 + tree_opt_lines(step, j);
            let p3 = p2 + tree_lines(*loop_body, j);
            let parts = p3 + tree_opt_lines(else_expr, j);
            lemma_join_at_least(tree_opt_lines(init, j), tree_opt_lines(condition, j), j);
            lemma_join_at_least(p1, tree_opt_lines(step, j), j);
            lemma_join_at_least(p2, tree_lines(*loop_body, j), j);
            lemma_join_at_least(p3, tree_opt_lines(else_expr, j), j);
            lemma_deeper_at_least(parts, k);
            lemma_wrap_at_least(lines[0], parts, none, k);
            assert(lines =~= seq![lines[0]] + parts + none);
        },
        ParsedExpressionKind::Declaration { value, .. } => {
            lemma_tree_lines_at_least(*value, j);
            lemma_deeper_at_least(tree_lines(*value, j), k);
            lemma_wrap_at_least(lines[0], tree_lines(*value, j), none, k);
            assert(lines =~= seq![lines[0]] + tree_lines(*value, j) + none);
        },
        ParsedExpressionKind::If { condition, then_block, else_expr } => {
            lemma_tree_lines_at_least(*condition, j);
            lemma_tree_lines_at_least(*then_block, j);
            let otherwise = match else_expr {
                Some(x) => seq![(j, "Else"@)] + tree_lines(*x, j),
                None => Seq::<PrintedLine>::empty(),
            };
            match else_expr {
                Some(x) => {
                    lemma_tree_lines_at_least(*x, j);
                    lemma_join_at_least(seq![(j, "Else"@)], tree_lines(*x, j), j);
                },
                None => {},
            }
            let p1 = tree_lines(*condition, j) + tree_lines(*then_block, j);
            let parts = p1 + otherwise;
            lemma_join_at_least(tree_lines(*condition, j), tree_lines(*then_block, j), j);
            lemma_join_at_least(p1, otherwise, j);
            lemma_deeper_at_least(parts, k);
            lemma_wrap_at_least(lines[0], parts, none, k);
            assert(lines =~= seq![lines[0]] + parts + none);
        },
        ParsedExpressionKind::FunctionCall { expr, args } => {
            lemma_tree_lines_at_least(*expr, j);
            lemma_tree_all_at_least(args@, j);
            let parts = tree_lines(*expr, j) + tree_all_lines(args@, j);
            lemma_join_at_least(tree_lines(*expr, j), tree_all_lines(args@, j), j);
            lemma_deeper_at_least(parts, k);
            lemma_wrap_at_least(lines[0], parts, none, k);
            assert(lines =~= seq![lines[0]] + parts + none);
        },
        ParsedExpressionKind::Tuple(elements) => {
            lemma_tree_all_at_least(elements@, j);
            lemma_deeper_at_least(tree_all_lines(elements@, j), k);
            lemma_wrap_at_least(lines[0], tree_all_lines(elements@, j), none, k);
            assert(lines =~= seq![lines[0]] + tree_all_lines(elements@, j) + none);
        },
        _ => {},
    }
}

proof fn lemma_tree_opt_at_least(x: Option<Box<ParsedExpression>>, k: nat)
    ensures
        all_at_least(tree_opt_lines(x, k), k),
    decreases x, 2nat,
{
    match x {
        Some(b) => lemma_tree_lines_at_least(*b, k),
        None => {},
    }
}

proof fn lemma_tree_all_at_least(s: Seq<ParsedExpression>, k: nat)
    ensures
        all_at_least(tree_all_lines(s, k), k),
    decreases s, 0nat,
{
    if s.len() > 0 {
        lemma_tree_all_at_least(s.drop_last(), k);
        lemma_tree_lines_at_least(s.last(), k);
        lemma_join_at_least(tree_all_lines(s.drop_last(), k), tree_lines(s.last(), k), k);
    }
}

proof fn lemma_tree_fields_at_least(s: Seq<(String, ParsedExpression)>, k: nat)
    ensures
        all_at_least(tree_fields_lines(s, k), k),
    decreases s, 0nat,
{
    if s.len() > 0 {
        lemma_tree_fields_at_least(s.drop_last(), k);
        lemma_tree_lines_at_least(s.last().1, k);
        lemma_join_at_least(tree_fields_lines(s.drop_last(), k), seq![(k, s.last().0@ + ": "@)], k);
        lemma_join_at_least(
            tree_fields_lines(s.drop_last(), k) + seq![(k, s.last().0@ + ": "@)],
            tree_lines(s.last().1, k),
            k,
        );
    }
}

/// Printing a parsed expression at level `k` adds at least one line, the first at level
/// `k`, and no line above level `k`; a name prints exactly one `Var(..)` line and
/// `continue` exactly one `Continue` line.
pub proof fn law_tree_lines_start_at_level(e: ParsedExpression, k: nat)
    ensures
        tree_lines(e, k).len() >= 1,
        tree_lines(e, k)[0].0 == k,
        all_at_least(tree_lines(e, k), k),
        e.value matches ParsedExpressionKind::Variable(name) ==> tree_lines(e, k) == seq![
            (k, "Var("@ + generic_id_text(name) + ")"@),
        ],
        e.value is Continue ==> tree_lines(e, k) == seq![(k, "Continue"@)],
{
    lemma_tree_lines_at_least(e, k);
}

/// Printing a module at level `k` starts with the line naming the module's path; a
/// module with nothing in it prints that line alone.
pub proof fn law_module_lines_start(m: ParsedModule, k: nat)
    ensures
        module_lines(m, k).len() >= 1,
        module_lines(m, k)[0] == (k, "Module("@ + path_text(m.module_id.path@) + ")"@),
        (m.imports@.len() == 0 && m.struct_definitions@.len() == 0 && m.type_aliases@.len() == 0
            && m.enums@.len() == 0 && m.trait_definitions@.len() == 0
            && m.trait_implementations@.len() == 0 && m.functions@.len() == 0) ==> module_lines(m, k)
            == seq![(k, "Module("@ + path_text(m.module_id.path@) + ")"@)],
{
    if m.imports@.len() == 0 && m.struct_definitions@.len() == 0 && m.type_aliases@.len() == 0
        && m.enums@.len() == 0 && m.trait_definitions@.len() == 0
        && m.trait_implementations@.len() == 0 && m.functions@.len() == 0 {
        assert(aliases_lines(m.type_aliases@, k) =~= Seq::<PrintedLine>::empty());
        assert(module_lines(m, k) =~= seq![(k, "Module("@ + path_text(m.module_id.path@) + ")"@)]);
    }
}

/// A trait implementation prints `impl TRAIT for TYPE {` at its level, naming the trait
/// and then the type it is implemented for, then its functions one level deeper, then
/// `}` at its level.
pub proof fn law_trait_impl_lines(t: ParsedTraitImplementation, k: nat)
    ensures
        trait_impl_lines(t, k).len() == functions_lines(t.functions@, k + 1).len() + 2,
        trait_impl_lines(t, k)[0] == (k, "impl "@ + generic_id_text(t.trait_id) + " for "@ + parsed_type_text(
            t.for_type.value,
        ) + " {"@),
        trait_impl_lines(t, k).last() == (k, "}"@),
        trait_impl_lines(t, k).subrange(1, trait_impl_lines(t, k).len() - 1) == functions_lines(t.functions@, k + 1),
{
    let lines = trait_impl_lines(t, k);
    assert(lines.subrange(1, lines.len() - 1) =~= functions_lines(t.functions@, k + 1));
}

/// A trait declaration prints `trait NAME<[GENERICS]> {` at its level, its signatures
/// one level deeper, then `}`.
pub proof fn law_trait_definition_lines(t: ParsedTraitDefinition, k: nat)
    ensures
        trait_definition_lines(t, k).len() == signatures_lines(t.functions@, k + 1).len() + 2,
        trait_definition_lines(t, k)[0] == (k, "trait "@ + t.trait_name@ + "<"@ + name_list_text(t.generics@) + "> {"@),
        trait_definition_lines(t, k).last() == (k, "}"@),
        trait_definition_lines(t, k).subrange(1, trait_definition_lines(t, k).len() - 1) == signatures_lines(
            t.functions@,
            k + 1,
        ),
{
    let lines = trait_definition_lines(t, k);
    assert(lines.subrange(1, lines.len() - 1) =~= signatures_lines(t.functions@, k + 1));
}

/// A struct declaration prints `struct NAME {` at its level, then each field in order
/// one level deeper as `FIELD: TYPE,`, then `}`.
pub proof fn law_struct_lines(d: ParsedStructDefinition, k: nat)
    ensures
        struct_lines(d, k).len() == d.fields@.len() + 2,
        struct_lines(d, k)[0] == (k, "struct "@ + d.struct_name@ + " {"@),
        forall|i: int|
            0 <= i < d.fields@.len() ==> #[trigger] struct_lines(d, k)[i + 1] == (k + 1, d.fields@[i].0@ + ": "@
                + parsed_type_text(d.fields@[i].1.value) + ","@),
        struct_lines(d, k).last() == (k, "}"@),
{
}

/// A function signature prints `fn NAME<[GENERICS]>(` at its level, each parameter in
/// order one level deeper as `NAME: TYPE`, then `) -> RETURN`.
pub proof fn law_signature_lines(sig: ParsedFunctionSignature, k: nat)
    ensures
        signature_lines(sig, k).len() == sig.params@.len() + 2,
        signature_lines(sig, k)[0] == (k, "fn "@ + sig.function_name@ + "<"@ + name_list_text(sig.generic_params@)
            + ">("@),
        forall|i: int|
            0 <= i < sig.params@.len() ==> #[trigger] signature_lines(sig, k)[i + 1] == (k + 1, sig.params@[i].1@
                + ": "@ + parsed_type_text(sig.params@[i].0.value)),
        signature_lines(sig, k).last() == (k, ") -> "@ + parsed_type_text(sig.return_type.value)),
{
}

/// An enum declaration prints `Enum(NAME)` at its level, then each variant in order one
/// level deeper as `NAME: VALUE`.
pub proof fn law_enum_lines(d: ParsedEnumDefinition, k: nat)
    ensures
        enum_lines(d, k).len() == d.variants@.len() + 1,
        enum_lines(d, k)[0] == (k, "Enum("@ + d.enum_name@ + ")"@),
        forall|i: int|
            0 <= i < d.variants@.len() ==> #[trigger] enum_lines(d, k)[i + 1] == (k + 1, d.variants@[i].0@ + ": "@
                + int_text(d.variants@[i].1 as int)),
{
}

/// The line that names an analyzed expression, printed right after its type, carries
/// what the expression is made of: the operator of an operation or assignment, whether
/// an increment or decrement is written before its operand, a literal's value, a
/// declared or accessed name, and whether a block gives a value.
pub proof fn law_analyzed_kind_line(e: ExprView, k: nat)
    ensures
        match e.kind {
            KindView::Binary { op, .. } => expr_lines(e, k)[1] == (k, "Binary("@ + binary_op_text(op) + ")"@),
            KindView::Unary { op, .. } => expr_lines(e, k)[1] == (k, "Unary("@ + unary_op_text(op) + ")"@),
            KindView::Assign { op, .. } => expr_lines(e, k)[1] == (k, "Assign("@ + assign_op_text(op) + ")"@),
            KindView::Increment(_, b) => expr_lines(e, k)[1] == (k, "Increment("@ + bool_text(b) + ")"@),
            KindView::Decrement(_, b) => expr_lines(e, k)[1] == (k, "Decrement("@ + bool_text(b) + ")"@),
            KindView::Literal(lit) => expr_lines(e, k)[1] == (k, "Literal("@ + literal_text(lit) + ")"@),
            KindView::Declaration { var_name, .. } => expr_lines(e, k)[1] == (k, "Declaration("@ + var_name
                + ")"@),
            KindView::FieldAccess { field_name, .. } => expr_lines(e, k)[1] == (k, "FieldAccess("@ + field_name
                + ")"@),
            KindView::Block { returns_value, .. } => expr_lines(e, k)[1] == (k, "Block (returns: "@ + bool_text(
                returns_value,
            ) + ") {"@),
            KindView::Sizeof(t) => expr_lines(e, k)[1] == (k, "Sizeof("@ + type_text(t) + ")"@),
            _ => true,
        },
{
}

/// The first line printed for a parsed expression carries what it is made of: the
/// operator of an operation, a literal's value, the name read, and the declared name
/// with its written type (`var` when none is written).
pub proof fn law_tree_kind_line(e: ParsedExpression, k: nat)
    ensures
        match e.value {
            ParsedExpressionKind::Binary { op, .. } => tree_lines(e, k)[0] == (k, "Binary("@ + parsed_binary_text(op)
                + ")"@),
            ParsedExpressionKind::Unary { op, .. } => tree_lines(e, k)[0] == (k, "Unary("@ + parsed_unary_text(op)
                + ")"@),
            ParsedExpressionKind::Literal(lit) => tree_lines(e, k)[0] == (k, "Literal("@ + parsed_literal_text(lit)
                + ")"@),
            ParsedExpressionKind::Declaration { var_type, var_name, .. } => tree_lines(e, k)[0] == (k,
                "Declaration("@ + match var_type {
                Some(t) => parsed_type_text(t.value),
                None => "var"@,
            } + ", "@ + var_name@ + ")"@),
            _ => true,
        },
{
}

} // verus!
