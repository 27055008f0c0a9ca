use vstd::prelude::*;
use vstd::string::StringExecFns;
use crate::analyzed_expression::{
    expr_views, field_views, kind_view, lemma_expr_views, lemma_field_views, opt_view,
    AnalyzedConstant, AnalyzedExpression, AnalyzedExpressionKind, AnalyzedFunctionCallType,
    AssignableExpression, AssignableExpressionKind, ExprView,
};
use crate::analyzed_print_spec::{
    control_lines, value_lines, operator_lines,
    assignable_depth, assignable_lines, expr_depth, expr_lines, exprs_depth, exprs_lines,
    fields_depth, fields_lines, opt_depth, opt_lines, PrintedLine,
};
use crate::analyzed_text::{
    append_assign_op, append_binary_op, append_bytes, append_function_ref, append_literal,
    append_type, append_unary_op, type_text,
};
use crate::printer::Printer;
use crate::analyzed_printer_steps::{print_all, print_assignable_expression, print_fields, print_optional};
use crate::analyzed_printer::{add_text_line, print_expression};
use crate::resolved_functions::ResolvedFunctionHeader;
use crate::text::{append_bool, append_u64, text};

verus! {

/// Prints the kind and parts of a block, return, break, conditional or loop.
#[verifier::rlimit(80)]
pub fn print_control_kind(printer: &mut Printer, expr: &AnalyzedExpression)
    requires
        old(printer).has_room(expr_depth(expr@)),
    ensures
        final(printer).lines() == old(printer).lines() + control_lines(expr@.kind, old(printer).level()),
        final(printer).level() == old(printer).level(),
    decreases expr, 0nat,
{
    let ghost start = printer.lines();
    let ghost k = printer.level();
    proof {
        assert(expr@.kind == kind_view(expr.kind));
    }
    match &expr.kind {
        AnalyzedExpressionKind::Block { expressions, returns_value } => {
            let mut line = text("Block (returns: ");
            append_bool(&mut line, *returns_value);
            line.append(") {");
            printer.add_line(line);
            printer.indent();
            print_all(printer, expressions);
            printer.dedent();
            add_text_line(printer, "}");
            proof {
                assert(printer.lines() =~= start + control_lines(expr@.kind, k));
            }
        },
        AnalyzedExpressionKind::Return(inner) => {
            add_text_line(printer, "Return {");
            printer.indent();
            print_optional(printer, inner);
            printer.dedent();
            add_text_line(printer, "}");
            proof {
                assert(printer.lines() =~= start + control_lines(expr@.kind, k));
            }
        },
        AnalyzedExpressionKind::Continue => {
            add_text_line(printer, "Continue");
            proof {
                assert(printer.lines() =~= start + control_lines(expr@.kind, k));
            }
        },
        AnalyzedExpressionKind::Break(inner) => {
            add_text_line(printer, "Break {");
            printer.indent();
            print_optional(printer, inner);
            printer.dedent();
            add_text_line(printer, "}");
            proof {
                assert(printer.lines() =~= start + control_lines(expr@.kind, k));
            }
        },
        AnalyzedExpressionKind::If { condition, then_block, else_expr } => {
            add_text_line(printer, "If {");
            printer.indent();
            print_expression(printer, condition);
            print_expression(printer, then_block);
            print_optional(printer, else_expr);
            printer.dedent();
            add_text_line(printer, "}");
            proof {
                assert(printer.lines() =~= start + control_lines(expr@.kind, k));
            }
        },
        AnalyzedExpressionKind::Loop { init, condition, step, loop_body, else_expr } => {
            add_text_line(printer, "Loop {");
            printer.indent();
            print_optional(printer, init);
            print_optional(printer, condition);
            print_optional(printer, step);
            print_expression(printer, loop_body);
            print_optional(printer, else_expr);
            printer.dedent();
            add_text_line(printer, "}");
            proof {
                assert(printer.lines() =~= start + control_lines(expr@.kind, k));
            }
        },
        _ => {
            proof {
                assert(printer.lines() =~= start + control_lines(expr@.kind, k));
            }
        },
    }
}

} // verus!
