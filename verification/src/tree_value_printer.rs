use vstd::prelude::*;
use vstd::string::StringExecFns;
use crate::analyzed_print_spec::larger;
use crate::parsed_expression::{ParsedExpression, ParsedExpressionKind};
use crate::parsed_text::{
    append_generic_id, append_parsed_binary, append_parsed_literal, append_parsed_type,
    append_parsed_unary,
};
use crate::printer::Printer;
use crate::text::text;
use crate::tree_print_spec::{
    tree_all_depth, tree_all_lines, tree_depth, tree_fields_depth, tree_fields_lines,
    tree_inner_depth, tree_lines, tree_opt_depth, tree_opt_lines,
};
use crate::tree_printer::print_expression;
use crate::tree_printer_steps::{print_all, print_fields, print_nested_optional, print_optional};

verus! {

/// Prints a sizeof, struct instance, name, literal, declaration or tuple as written.
pub fn print_value_expression(printer: &mut Printer, expr: &ParsedExpression)
    requires
        old(printer).has_room(tree_depth(*expr)),
        expr.value is Sizeof || expr.value is StructInstance || expr.value is Variable || expr.value is Literal || expr.value is Declaration || expr.value is Tuple,
    ensures
        final(printer).lines() == old(printer).lines() + tree_lines(*expr, old(printer).level()),
        final(printer).level() == old(printer).level(),
    decreases expr, 0nat,
{
    let ghost start = printer.lines();
    let ghost k = printer.level();
    match &expr.value {
        ParsedExpressionKind::Sizeof(ty) => {
            let mut line = text("Sizeof(");
            append_parsed_type(&mut line, &ty.value);
            line.append(")");
            printer.add_line(line);
        },
        ParsedExpressionKind::StructInstance { struct_type, fields } => {
            let mut line = text("StructInstance(");
            append_parsed_type(&mut line, &struct_type.value);
            line.append(")");
            printer.add_line(line);
            printer.indent();
            print_fields(printer, fields);
            printer.dedent();
        },
        ParsedExpressionKind::Variable(name) => {
            let mut line = text("Var(");
            append_generic_id(&mut line, name);
            line.append(")");
            printer.add_line(line);
        },
        ParsedExpressionKind::Literal(lit) => {
            let mut line = text("Literal(");
            append_parsed_literal(&mut line, lit);
            line.append(")");
            printer.add_line(line);
        },
        ParsedExpressionKind::Declaration { var_type, var_name, value } => {
            let mut line = text("Declaration(");
            match var_type {
                Some(t) => append_parsed_type(&mut line, &t.value),
                None => line.append("var"),
            }
            line.append(", ");
            line.append(var_name.as_str());
            line.append(")");
            printer.add_line(line);
            printer.indent();
            print_expression(printer, value);
            printer.dedent();
        },
        ParsedExpressionKind::Tuple(elements) => {
            printer.add_line(text("Tuple"));
            printer.indent();
            print_all(printer, elements);
            printer.dedent();
        },
        _ => {},
    }
    proof {
        assert(printer.lines() =~= start + tree_lines(*expr, k));
    }
}

} // verus!
