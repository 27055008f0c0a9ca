use vstd::prelude::*;
use vstd::string::StringExecFns;
use crate::analyzed_print_spec::larger;
use crate::parsed_expression::{ParsedExpression, ParsedExpressionKind};
use crate::parsed_text::{
    append_generic_id, append_parsed_binary, append_parsed_literal, append_parsed_type,
    append_parsed_unary,
};
use crate::printer::Printer;
use crate::text::text;
use crate::tree_print_spec::{
    tree_all_depth, tree_all_lines, tree_depth, tree_fields_depth, tree_fields_lines,
    tree_inner_depth, tree_lines, tree_opt_depth, tree_opt_lines,
};
use crate::tree_control_printer::print_control_expression;
use crate::tree_operator_printer::print_operator_expression;
use crate::tree_value_printer::print_value_expression;

verus! {

/// Prints an expression as written: a line naming it, then its parts one indentation
/// level deeper.
pub fn print_expression(printer: &mut Printer, expr: &ParsedExpression)
    requires
        old(printer).has_room(tree_depth(*expr)),
    ensures
        final(printer).lines() == old(printer).lines() + tree_lines(*expr, old(printer).level()),
        final(printer).level() == old(printer).level(),
    decreases expr, 1nat,
{
    match &expr.value {
        ParsedExpressionKind::Block { .. } | ParsedExpressionKind::Return(..)
        | ParsedExpressionKind::Continue | ParsedExpressionKind::Break(..)
        | ParsedExpressionKind::Loop { .. } | ParsedExpressionKind::If { .. } => {
            print_control_expression(printer, expr);
        },
        ParsedExpressionKind::Unary { .. } | ParsedExpressionKind::Binary { .. }
        | ParsedExpressionKind::FunctionCall { .. } => {
            print_operator_expression(printer, expr);
        },
        _ => {
            print_value_expression(printer, expr);
        },
    }
}

} // verus!
