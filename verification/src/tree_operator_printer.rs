use vstd::prelude::*;
use vstd::string::StringExecFns;
use crate::analyzed_print_spec::larger;
use crate::parsed_expression::{ParsedExpression, ParsedExpressionKind};
use crate::parsed_text::{
    append_generic_id, append_parsed_binary, append_parsed_literal, append_parsed_type,
    append_parsed_unary,
};
use crate::printer::Printer;
use crate::text::text;
use crate::tree_print_spec::{
    tree_all_depth, tree_all_lines, tree_depth, tree_fields_depth, tree_fields_lines,
    tree_inner_depth, tree_lines, tree_opt_depth, tree_opt_lines,
};
use crate::tree_printer::print_expression;
use crate::tree_printer_steps::{print_all, print_fields, print_nested_optional, print_optional};

verus! {

/// Prints a unary or binary operation or a call as written.
pub fn print_operator_expression(printer: &mut Printer, expr: &ParsedExpression)
    requires
        old(printer).has_room(tree_depth(*expr)),
        expr.value is Unary || expr.value is Binary || expr.value is FunctionCall,
    ensures
        final(printer).lines() == old(printer).lines() + tree_lines(*expr, old(printer).level()),
        final(printer).level() == old(printer).level(),
    decreases expr, 0nat,
{
    let ghost start = printer.lines();
    let ghost k = printer.level();
    match &expr.value {
        ParsedExpressionKind::Unary { op, expr: inner } => {
            let mut line = text("Unary(");
            append_parsed_unary(&mut line, op);
            line.append(")");
            printer.add_line(line);
            printer.indent();
            print_expression(printer, inner);
            printer.dedent();
        },
        ParsedExpressionKind::Binary { op, left, right } => {
            let mut line = text("Binary(");
            append_parsed_binary(&mut line, *op);
            line.append(")");
            printer.add_line(line);
            printer.indent();
            print_expression(printer, left);
            print_expression(printer, right);
            printer.dedent();
        },
        ParsedExpressionKind::FunctionCall { expr: callee, args } => {
            printer.add_line(text("FunctionCall"));
            printer.indent();
            print_expression(printer, callee);
            print_all(printer, args);
            printer.dedent();
        },
        _ => {},
    }
    proof {
        assert(printer.lines() =~= start + tree_lines(*expr, k));
    }
}

} // verus!
