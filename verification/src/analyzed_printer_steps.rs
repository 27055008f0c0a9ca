use vstd::prelude::*;
use vstd::string::StringExecFns;
use crate::analyzed_expression::{
    expr_views, field_views, lemma_expr_views, lemma_field_views, opt_view, AnalyzedExpression,
    AssignableExpression, AssignableExpressionKind, AssignableKindView, ExprView,
};
use crate::analyzed_print_spec::{
    assignable_depth, assignable_lines, expr_depth, exprs_depth, exprs_lines, fields_depth,
    fields_lines, opt_depth, opt_lines, expr_lines,
};
use crate::analyzed_printer::print_expression;
use crate::printer::Printer;
use crate::text::{append_u64, text};

verus! {

proof fn lemma_exprs_depth(s: Seq<ExprView>, i: int)
    requires
        0 <= i < s.len(),
    ensures
        expr_depth(s[i]) <= exprs_depth(s),
    decreases s.len(),
{
    if i < s.len() - 1 {
        lemma_exprs_depth(s.drop_last(), i);
    }
}

proof fn lemma_fields_depth(s: Seq<(Seq<char>, ExprView)>, i: int)
    requires
        0 <= i < s.len(),
    ensures
        expr_depth(s[i].1) <= fields_depth(s),
    decreases s.len(),
{
    if i < s.len() - 1 {
        lemma_fields_depth(s.drop_last(), i);
    }
}

/// Prints expressions one after the other.
pub fn print_all(printer: &mut Printer, expressions: &Vec<AnalyzedExpression>)
    requires
        old(printer).has_room(exprs_depth(expr_views(expressions@))),
    ensures
        final(printer).lines() == old(printer).lines() + exprs_lines(
            expr_views(expressions@),
            old(printer).level(),
        ),
        final(printer).level() == old(printer).level(),
    decreases expressions, 0nat,
{
    let ghost start = printer.lines();
    let ghost k = printer.level();
    let ghost s = expr_views(expressions@);
    proof {
        lemma_expr_views(expressions@);
        assert(s.take(0) =~= Seq::<ExprView>::empty());
        assert(start + exprs_lines(s.take(0), k) =~= start);
    }
    let mut i: usize = 0;
    while i < expressions.len()
        invariant
            i <= expressions@.len(),
            s == expr_views(expressions@),
            s.len() == expressions@.len(),
            forall|j: int| 0 <= j < expressions@.len() ==> #[trigger] s[j] == expressions@[j]@,
            k == printer.level(),
            k + exprs_depth(s) <= usize::MAX,
            printer.lines() == start + exprs_lines(s.take(i as int), k),
        decreases expressions@.len() - i,
    {
        proof {
            lemma_exprs_depth(s, i as int);
            assert(decreases_to!(expressions => expressions@[i as int]));
        }
        print_expression(printer, &expressions[i]);
        proof {
            let t = s.take((i + 1) as int);
            assert(t.drop_last() =~= s.take(i as int));
            assert(t.last() == expressions@[i as int]@);
            assert(printer.lines() =~= start + exprs_lines(t, k));
        }
        i += 1;
    }
    proof {
        assert(s.take(expressions@.len() as int) =~= s);
    }
}

/// Prints a subexpression when there is one.
pub fn print_optional(printer: &mut Printer, x: &Option<Box<AnalyzedExpression>>)
    requires
        old(printer).has_room(opt_depth(opt_view(*x))),
    ensures
        final(printer).lines() == old(printer).lines() + opt_lines(opt_view(*x), old(printer).level()),
        final(printer).level() == old(printer).level(),
    decreases x, 2nat,
{
    match x {
        Some(inner) => {
            print_expression(printer, inner);
        },
        None => {
            assert(printer.lines() =~= old(printer).lines() + opt_lines(opt_view(*x), old(printer).level()));
        },
    }
}

/// Prints struct fields: each field's name, then its value.
pub fn print_fields(printer: &mut Printer, fields: &Vec<(String, AnalyzedExpression)>)
    requires
        old(printer).has_room(fields_depth(field_views(fields@))),
    ensures
        final(printer).lines() == old(printer).lines() + fields_lines(
            field_views(fields@),
            old(printer).level(),
        ),
        final(printer).level() == old(printer).level(),
    decreases fields, 0nat,
{
    let ghost start = printer.lines();
    let ghost k = printer.level();
    let ghost s = field_views(fields@);
    proof {
        lemma_field_views(fields@);
        assert(s.take(0) =~= Seq::<(Seq<char>, ExprView)>::empty());
        assert(start + fields_lines(s.take(0), k) =~= start);
    }
    let mut i: usize = 0;
    while i < fields.len()
        invariant
            i <= fields@.len(),
            s == field_views(fields@),
            s.len() == fields@.len(),
            forall|j: int| 0 <= j < fields@.len() ==> #[trigger] s[j] == (fields@[j].0@, fields@[j].1@),
            k == printer.level(),
            k + fields_depth(s) <= usize::MAX,
            printer.lines() == start + fields_lines(s.take(i as int), k),
        decreases fields@.len() - i,
    {
        proof {
            lemma_fields_depth(s, i as int);
            assert(decreases_to!(fields => fields@[i as int].1));
        }
        let mut line = fields[i].0.clone();
        line.append(": ");
        printer.add_line(line);
        print_expression(printer, &fields[i].1);
        proof {
            let t = s.take((i + 1) as int);
            assert(t.drop_last() =~= s.take(i as int));
            assert(t.last() == (fields@[i as int].0@, fields@[i as int].1@));
            assert(printer.lines() =~= start + fields_lines(t, k));
        }
        i += 1;
    }
    proof {
        assert(s.take(fields@.len() as int) =~= s);
    }
}

/// Prints an assignable expression: a line naming the place, with its parts one
/// indentation level deeper.
pub fn print_assignable_expression(printer: &mut Printer, expr: &AssignableExpression)
    requires
        old(printer).has_room(assignable_depth(expr@)),
    ensures
        final(printer).lines() == old(printer).lines() + assignable_lines(expr@, old(printer).level()),
        final(printer).level() == old(printer).level(),
    decreases expr, 1nat,
{
    let ghost start = printer.lines();
    let ghost k = printer.level();
    match &expr.kind {
        AssignableExpressionKind::LocalVariable(var) => {
            let mut line = text("LocalVariable(");
            line.append(var.as_str());
            line.append(")");
            printer.add_line(line);
            proof {
                assert(expr@.kind == AssignableKindView::LocalVariable(var@));
            }
        },
        AssignableExpressionKind::Dereference(inner) => {
            printer.add_line(text("Dereference"));
            printer.indent();
            print_expression(printer, inner);
            printer.dedent();
            proof {
                assert(expr@.kind == AssignableKindView::Dereference(Box::new((**inner)@)));
            }
        },
        AssignableExpressionKind::FieldAccess(inner, field) => {
            let mut line = text("FieldAccess(");
            line.append(field.as_str());
            line.append(")");
            printer.add_line(line);
            printer.indent();
            print_assignable_expression(printer, inner);
            printer.dedent();
            proof {
                assert(expr@.kind == AssignableKindView::FieldAccess(Box::new((**inner)@), field@));
            }
        },
        AssignableExpressionKind::PointerFieldAccess(inner, field, indirections) => {
            let mut line = text("PointerFieldAccess(");
            line.append(field.as_str());
            line.append(", ");
            append_u64(&mut line, *indirections as u64);
            line.append(")");
            printer.add_line(line);
            printer.indent();
            print_expression(printer, inner);
            printer.dedent();
            proof {
                assert(expr@.kind == AssignableKindView::PointerFieldAccess(
                    Box::new((**inner)@),
                    field@,
                    *indirections,
                ));
            }
        },
        AssignableExpressionKind::ArrayIndex(array, index) => {
            printer.add_line(text("ArrayIndex"));
            printer.indent();
            print_expression(printer, array);
            print_expression(printer, index);
            printer.dedent();
            proof {
                assert(expr@.kind == AssignableKindView::ArrayIndex(
                    Box::new((**array)@),
                    Box::new((**index)@),
                ));
            }
        },
    }
    proof {
        assert(printer.lines() =~= start + assignable_lines(expr@, k));
    }
}

} // verus!
