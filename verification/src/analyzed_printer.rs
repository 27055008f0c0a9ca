use vstd::prelude::*;
use vstd::string::StringExecFns;
use crate::analyzed_expression::{
    expr_views, field_views, kind_view, lemma_expr_views, lemma_field_views, opt_view,
    AnalyzedConstant, AnalyzedExpression, AnalyzedExpressionKind, AnalyzedFunctionCallType,
    AssignableExpression, AssignableExpressionKind, ExprView,
};
use crate::analyzed_print_spec::{
    assignable_depth, assignable_lines, expr_depth, expr_lines, exprs_depth, exprs_lines,
    fields_depth, fields_lines, opt_depth, opt_lines, PrintedLine,
};
use crate::analyzed_text::{
    append_generic_params, generic_params_text,
    append_assign_op, append_binary_op, append_bytes, append_function_ref, append_literal,
    append_type, append_unary_op, type_text,
};
use crate::printer::Printer;
use crate::control_printer::print_control_kind;
use crate::value_printer::print_value_kind;
use crate::operator_printer::print_operator_kind;
use crate::analyzed_printer_steps::{print_all, print_assignable_expression, print_fields, print_optional};
use crate::resolved_functions::ResolvedFunctionHeader;
use crate::text::{append_bool, append_u64, nat_text, text};

verus! {

/// Adds a line holding the given text.
pub(crate) fn add_text_line(printer: &mut Printer, line: &str)
    ensures
        final(printer).lines() == old(printer).lines().push((old(printer).level(), line@)),
        final(printer).level() == old(printer).level(),
{
    printer.add_line(text(line));
}

/// Prints an analyzed expression: a line with its type, a line naming its kind, and its
/// parts one indentation level deeper.
pub fn print_expression(printer: &mut Printer, expr: &AnalyzedExpression)
    requires
        old(printer).has_room(expr_depth(expr@)),
    ensures
        final(printer).lines() == old(printer).lines() + expr_lines(expr@, old(printer).level()),
        final(printer).level() == old(printer).level(),
    decreases expr, 1nat,
{
    let ghost start = printer.lines();
    let ghost k = printer.level();
    let mut head = text("Expr type: ");
    append_type(&mut head, &expr.ty);
    printer.add_line(head);
    let ghost after_head = printer.lines();
    proof {
        assert(expr@.kind == kind_view(expr.kind));
    }
    match &expr.kind {
        AnalyzedExpressionKind::Block { .. } | AnalyzedExpressionKind::Return(..)
        | AnalyzedExpressionKind::Continue | AnalyzedExpressionKind::Break(..)
        | AnalyzedExpressionKind::If { .. } | AnalyzedExpressionKind::Loop { .. } => {
            print_control_kind(printer, expr);
        },
        AnalyzedExpressionKind::Declaration { .. } | AnalyzedExpressionKind::ValueOfAssignable(..)
        | AnalyzedExpressionKind::StructInstance { .. } | AnalyzedExpressionKind::Literal(..)
        | AnalyzedExpressionKind::ConstantPointer(..) | AnalyzedExpressionKind::Sizeof(..)
        | AnalyzedExpressionKind::FunctionPointer(..) => {
            print_value_kind(printer, expr);
        },
        _ => {
            print_operator_kind(printer, expr);
        },
    }
    proof {
        assert(printer.lines() =~= start + expr_lines(expr@, k));
    }
}

/// The lines that printing a function header adds at level `k`: the generic parameters
/// and identifier, each parameter one level deeper, then the return type.
pub open spec fn header_lines(h: ResolvedFunctionHeader, k: nat) -> Seq<PrintedLine> {
    seq![(k, "Function<"@ + generic_params_text(h.generic_params) + ">("@ + nat_text(h.id as nat) + ")"@)]
        + Seq::new(
        h.parameter_types@.len(),
        |i: int| (k + 1, h.parameter_types@[i].0@ + ": "@ + type_text(h.parameter_types@[i].1@)),
    ) + seq![(k, "-> "@ + type_text(h.return_type@))]
}

/// Prints the signature of a function.
pub fn print_function_header(printer: &mut Printer, header: &ResolvedFunctionHeader)
    requires
        old(printer).has_room(1),
    ensures
        final(printer).lines() == old(printer).lines() + header_lines(*header, old(printer).level()),
        final(printer).level() == old(printer).level(),
{
    let ghost start = printer.lines();
    let ghost k = printer.level();
    let mut line = text("Function<");
    append_generic_params(&mut line, &header.generic_params);
    line.append(">(");
    append_u64(&mut line, header.id);
    line.append(")");
    printer.add_line(line);
    printer.indent();
    let ghost params = Seq::new(
        header.parameter_types@.len(),
        |i: int| (k + 1, header.parameter_types@[i].0@ + ": "@ + type_text(header.parameter_types@[i].1@)),
    );
    let ghost first = printer.lines();
    let mut i: usize = 0;
    while i < header.parameter_types.len()
        invariant
            i <= header.parameter_types@.len(),
            printer.level() == k + 1,
            params == Seq::new(
                header.parameter_types@.len(),
                |i: int| (k + 1, header.parameter_types@[i].0@ + ": "@ + type_text(header.parameter_types@[i].1@)),
            ),
            printer.lines() == first + params.take(i as int),
        decreases header.parameter_types@.len() - i,
    {
        let mut line = header.parameter_types[i].0.clone();
        line.append(": ");
        append_type(&mut line, &header.parameter_types[i].1);
        printer.add_line(line);
        proof {
            assert(params.take((i + 1) as int) =~= params.take(i as int).push(params[i as int]));
        }
        i += 1;
    }
    printer.dedent();
    let mut last = text("-> ");
    append_type(&mut last, &header.return_type);
    printer.add_line(last);
    proof {
        assert(params.take(header.parameter_types@.len() as int) =~= params);
        assert(printer.lines() =~= start + header_lines(*header, k));
    }
}

} // verus!
