use vstd::prelude::*;
use vstd::string::StringExecFns;
use crate::analyzed_expression::{
    expr_views, field_views, kind_view, lemma_expr_views, lemma_field_views, opt_view,
    AnalyzedConstant, AnalyzedExpression, AnalyzedExpressionKind, AnalyzedFunctionCallType,
    AssignableExpression, AssignableExpressionKind, ExprView,
};
use crate::analyzed_print_spec::{
    control_lines, value_lines, operator_lines,
    assignable_depth, assignable_lines, expr_depth, expr_lines, exprs_depth, exprs_lines,
    fields_depth, fields_lines, opt_depth, opt_lines, PrintedLine,
};
use crate::analyzed_text::{
    append_assign_op, append_binary_op, append_bytes, append_function_ref, append_literal,
    append_type, append_unary_op, type_text,
};
use crate::printer::Printer;
use crate::analyzed_printer_steps::{print_all, print_assignable_expression, print_fields, print_optional};
use crate::analyzed_printer::{add_text_line, print_expression};
use crate::resolved_functions::ResolvedFunctionHeader;
use crate::text::{append_bool, append_u64, text};

verus! {

/// Prints the kind and parts of an operator, assignment, borrow, call or field access.
pub fn print_operator_kind(printer: &mut Printer, expr: &AnalyzedExpression)
    requires
        old(printer).has_room(expr_depth(expr@)),
    ensures
        final(printer).lines() == old(printer).lines() + operator_lines(expr@.kind, old(printer).level()),
        final(printer).level() == old(printer).level(),
    decreases expr, 0nat,
{
    let ghost start = printer.lines();
    let ghost k = printer.level();
    proof {
        assert(expr@.kind == kind_view(expr.kind));
    }
    match &expr.kind {
        AnalyzedExpressionKind::Unary { op, expr: inner } => {
            let mut line = text("Unary(");
            append_unary_op(&mut line, *op);
            line.append(")");
            printer.add_line(line);
            printer.indent();
            print_expression(printer, inner);
            printer.dedent();
            proof {
                assert(printer.lines() =~= start + operator_lines(expr@.kind, k));
            }
        },
        AnalyzedExpressionKind::Binary { op, left, right } => {
            let mut line = text("Binary(");
            append_binary_op(&mut line, *op);
            line.append(")");
            printer.add_line(line);
            printer.indent();
            print_expression(printer, left);
            print_expression(printer, right);
            printer.dedent();
            proof {
                assert(printer.lines() =~= start + operator_lines(expr@.kind, k));
            }
        },
        AnalyzedExpressionKind::Assign { op, lhs, rhs } => {
            let mut line = text("Assign(");
            append_assign_op(&mut line, *op);
            line.append(")");
            printer.add_line(line);
            printer.indent();
            print_assignable_expression(printer, lhs);
            print_expression(printer, rhs);
            printer.dedent();
            proof {
                assert(printer.lines() =~= start + operator_lines(expr@.kind, k));
            }
        },
        AnalyzedExpressionKind::Borrow { expr: inner } => {
            add_text_line(printer, "Borrow");
            printer.indent();
            print_assignable_expression(printer, inner);
            printer.dedent();
            proof {
                assert(printer.lines() =~= start + operator_lines(expr@.kind, k));
            }
        },
        AnalyzedExpressionKind::FunctionCall { call_type, args } => {
            add_text_line(printer, "FunctionCall");
            printer.indent();
            match call_type {
                AnalyzedFunctionCallType::Function(function) => {
                    let mut line = text("Function(");
                    append_function_ref(&mut line, function);
                    line.append(")");
                    printer.add_line(line);
                },
                AnalyzedFunctionCallType::FunctionPointer(inner) => {
                    print_expression(printer, inner);
                },
            }
            print_all(printer, args);
            printer.dedent();
            proof {
                assert(printer.lines() =~= start + operator_lines(expr@.kind, k));
            }
        },
        AnalyzedExpressionKind::FieldAccess { field_name, expr: inner } => {
            let mut line = text("FieldAccess(");
            line.append(field_name.as_str());
            line.append(")");
            printer.add_line(line);
            printer.indent();
            print_expression(printer, inner);
            printer.dedent();
            proof {
                assert(printer.lines() =~= start + operator_lines(expr@.kind, k));
            }
        },
        AnalyzedExpressionKind::Increment(inner, is_post) => {
            let mut line = text("Increment(");
            append_bool(&mut line, *is_post);
            line.append(")");
            printer.add_line(line);
            printer.indent();
            print_assignable_expression(printer, inner);
            printer.dedent();
            proof {
                assert(printer.lines() =~= start + operator_lines(expr@.kind, k));
            }
        },
        AnalyzedExpressionKind::Decrement(inner, is_post) => {
            let mut line = text("Decrement(");
            append_bool(&mut line, *is_post);
            line.append(")");
            printer.add_line(line);
            printer.indent();
            print_assignable_expression(printer, inner);
            printer.dedent();
            proof {
                assert(printer.lines() =~= start + operator_lines(expr@.kind, k));
            }
        },
        _ => {
            proof {
                assert(printer.lines() =~= start + operator_lines(expr@.kind, k));
            }
        },
    }
}

} // verus!
