use vstd::prelude::*;
use vstd::string::StringExecFns;
use crate::analyzed_print_spec::larger;
use crate::parsed_expression::{ParsedExpression, ParsedExpressionKind};
use crate::parsed_text::{
    append_generic_id, append_parsed_binary, append_parsed_literal, append_parsed_type,
    append_parsed_unary,
};
use crate::printer::Printer;
use crate::text::text;
use crate::tree_print_spec::{
    tree_all_depth, tree_all_lines, tree_depth, tree_fields_depth, tree_fields_lines,
    tree_inner_depth, tree_lines, tree_opt_depth, tree_opt_lines,
};
use crate::tree_printer::print_expression;
use crate::tree_printer_steps::{print_all, print_fields, print_nested_optional, print_optional};

verus! {

/// Prints a block, return, break, continue, loop or conditional as written.
#[verifier::rlimit(30)]
pub fn print_control_expression(printer: &mut Printer, expr: &ParsedExpression)
    requires
        old(printer).has_room(tree_depth(*expr)),
        expr.value is Block || expr.value is Return || expr.value is Continue || expr.value is Break || expr.value is Loop || expr.value is If,
    ensures
        final(printer).lines() == old(printer).lines() + tree_lines(*expr, old(printer).level()),
        final(printer).level() == old(printer).level(),
    decreases expr, 0nat,
{
    let ghost start = printer.lines();
    let ghost k = printer.level();
    match &expr.value {
        ParsedExpressionKind::Continue => {
            printer.add_line(text("Continue"));
        },
        ParsedExpressionKind::Break(maybe_expr) => {
            printer.add_line(text("Break"));
            print_nested_optional(printer, maybe_expr);
        },
        ParsedExpressionKind::Block { expressions, .. } => {
            printer.add_line(text("{"));
            printer.indent();
            print_all(printer, expressions);
            printer.dedent();
            printer.add_line(text("}"));
        },
        ParsedExpressionKind::Return(maybe_expr) => {
            printer.add_line(text("Return"));
            print_nested_optional(printer, maybe_expr);
        },
        ParsedExpressionKind::Loop { init, condition, step, loop_body, else_expr } => {
            printer.add_line(text("Loop"));
            printer.indent();
            print_optional(printer, init);
            print_optional(printer, condition);
            print_optional(printer, step);
            print_expression(printer, loop_body);
            print_optional(printer, else_expr);
            printer.dedent();
        },
        ParsedExpressionKind::If { condition, then_block, else_expr } => {
            printer.add_line(text("If"));
            printer.indent();
            print_expression(printer, condition);
            print_expression(printer, then_block);
            match else_expr {
                Some(else_block) => {
                    assert(tree_inner_depth(*else_expr) == tree_depth(**else_block));
                    printer.add_line(text("Else"));
                    print_expression(printer, else_block);
                },
                None => {},
            }
            printer.dedent();
        },
        _ => {},
    }
    proof {
        assert(printer.lines() =~= start + tree_lines(*expr, k));
    }
}

} // verus!
