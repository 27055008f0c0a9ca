use vstd::prelude::*;
use vstd::string::StringExecFns;
use crate::analyzed_expression::{
    expr_views, field_views, kind_view, lemma_expr_views, lemma_field_views, opt_view,
    AnalyzedConstant, AnalyzedExpression, AnalyzedExpressionKind, AnalyzedFunctionCallType,
    AssignableExpression, AssignableExpressionKind, ExprView,
};
use crate::analyzed_print_spec::{
    control_lines, value_lines, operator_lines,
    assignable_depth, assignable_lines, expr_depth, expr_lines, exprs_depth, exprs_lines,
    fields_depth, fields_lines, opt_depth, opt_lines, PrintedLine,
};
use crate::analyzed_text::{
    append_assign_op, append_binary_op, append_bytes, append_function_ref, append_literal,
    append_type, append_unary_op, type_text,
};
use crate::printer::Printer;
use crate::analyzed_printer_steps::{print_all, print_assignable_expression, print_fields, print_optional};
use crate::analyzed_printer::{add_text_line, print_expression};
use crate::resolved_functions::ResolvedFunctionHeader;
use crate::text::{append_bool, append_u64, text};

verus! {

/// Prints the kind and parts of a declaration, a place read as a value, a struct instance or a constant.
pub fn print_value_kind(printer: &mut Printer, expr: &AnalyzedExpression)
    requires
        old(printer).has_room(expr_depth(expr@)),
    ensures
        final(printer).lines() == old(printer).lines() + value_lines(expr@.kind, old(printer).level()),
        final(printer).level() == old(printer).level(),
    decreases expr, 0nat,
{
    let ghost start = printer.lines();
    let ghost k = printer.level();
    proof {
        assert(expr@.kind == kind_view(expr.kind));
    }
    match &expr.kind {
        AnalyzedExpressionKind::Declaration { var_name, value } => {
            let mut line = text("Declaration(");
            line.append(var_name.as_str());
            line.append(")");
            printer.add_line(line);
            printer.indent();
            print_expression(printer, value);
            printer.dedent();
            proof {
                assert(printer.lines() =~= start + value_lines(expr@.kind, k));
            }
        },
        AnalyzedExpressionKind::ValueOfAssignable(inner) => {
            add_text_line(printer, "ValueOfAssignable");
            printer.indent();
            print_assignable_expression(printer, inner);
            printer.dedent();
            proof {
                assert(printer.lines() =~= start + value_lines(expr@.kind, k));
            }
        },
        AnalyzedExpressionKind::StructInstance { fields } => {
            add_text_line(printer, "Struct");
            printer.indent();
            print_fields(printer, fields);
            printer.dedent();
            proof {
                assert(printer.lines() =~= start + value_lines(expr@.kind, k));
            }
        },
        AnalyzedExpressionKind::Literal(lit) => {
            let mut line = text("Literal(");
            append_literal(&mut line, *lit);
            line.append(")");
            printer.add_line(line);
            proof {
                assert(printer.lines() =~= start + value_lines(expr@.kind, k));
            }
        },
        AnalyzedExpressionKind::ConstantPointer(AnalyzedConstant::String(bytes)) => {
            let mut line = text("ConstantPointer(String([");
            append_bytes(&mut line, bytes);
            line.append("]))");
            printer.add_line(line);
            proof {
                assert(printer.lines() =~= start + value_lines(expr@.kind, k));
            }
        },
        AnalyzedExpressionKind::Sizeof(ty) => {
            let mut line = text("Sizeof(");
            append_type(&mut line, ty);
            line.append(")");
            printer.add_line(line);
            proof {
                assert(printer.lines() =~= start + value_lines(expr@.kind, k));
            }
        },
        AnalyzedExpressionKind::FunctionPointer(function) => {
            let mut line = text("FunctionPointer(");
            append_function_ref(&mut line, function);
            line.append(")");
            printer.add_line(line);
            proof {
                assert(printer.lines() =~= start + value_lines(expr@.kind, k));
            }
        },
        _ => {
            proof {
                assert(printer.lines() =~= start + value_lines(expr@.kind, k));
            }
        },
    }
}

} // verus!
