use vstd::prelude::*;
use crate::analyzed_print_spec::{larger, PrintedLine};
use crate::parsed_expression::{Located, ParsedExpression, ParsedExpressionKind};
use crate::parsed_program::{
    ParsedEnumDefinition, ParsedFunction, ParsedFunctionSignature, ParsedImport, ParsedModule,
    ParsedStructDefinition, ParsedTraitDefinition, ParsedTraitImplementation, ParsedTypeAlias,
};
use crate::parsed_text::{
    generic_id_text, name_list_text, parsed_binary_text, parsed_literal_text, parsed_type_text,
    parsed_unary_text, path_text,
};
use crate::text::int_text;

verus! {

/// How many indentation levels printing a parsed expression goes below its start.
pub open spec fn tree_depth(e: ParsedExpression) -> nat
    decreases e, 1nat,
{
    match e.value {
        ParsedExpressionKind::Sizeof(_) => 0,
        ParsedExpressionKind::StructInstance { fields, .. } => 1 + tree_fields_depth(fields@),
        ParsedExpressionKind::Variable(_) => 0,
        ParsedExpressionKind::Continue => 0,
        ParsedExpressionKind::Break(x) => tree_opt_depth(x),
        ParsedExpressionKind::Unary { expr, .. } => 1 + tree_depth(*expr),
        ParsedExpressionKind::Binary { left, right, .. } => 1 + larger(tree_depth(*left), tree_depth(*right)),
        ParsedExpressionKind::Literal(_) => 0,
        ParsedExpressionKind::Block { expressions, .. } => 1 + tree_all_depth(expressions@),
        ParsedExpressionKind::Return(x) => tree_opt_depth(x),
        ParsedExpressionKind::Loop { init, condition, step, loop_body, else_expr } => 1 + larger(
            larger(larger(tree_inner_depth(init), tree_inner_depth(condition)), larger(tree_inner_depth(step), tree_depth(*loop_body))),
            tree_inner_depth(else_expr),
        ),
        ParsedExpressionKind::Declaration { value, .. } => 1 + tree_depth(*value),
        ParsedExpressionKind::If { condition, then_block, else_expr } => 1 + larger(
            larger(tree_depth(*condition), tree_depth(*then_block)),
            tree_inner_depth(else_expr),
        ),
        ParsedExpressionKind::FunctionCall { expr, args } => 1 + larger(tree_depth(*expr), tree_all_depth(args@)),
        ParsedExpressionKind::Tuple(elements) => 1 + tree_all_depth(elements@),
    }
}

/// The depth of an optional part printed one level deeper, counting that level.
pub open spec fn tree_opt_depth(x: Option<Box<ParsedExpression>>) -> nat
    decreases x, 2nat,
{
    match x {
        Some(b) => 1 + tree_depth(*b),
        None => 0,
    }
}

/// The depth of an optional part printed at the current level.
pub open spec fn tree_inner_depth(x: Option<Box<ParsedExpression>>) -> nat
    decreases x, 2nat,
{
    match x {
        Some(b) => tree_depth(*b),
        None => 0,
    }
}

pub open spec fn tree_all_depth(s: Seq<ParsedExpression>) -> nat
    decreases s, 0nat,
{
    if s.len() == 0 {
        0
    } else {
        larger(tree_all_depth(s.drop_last()), tree_depth(s.last()))
    }
}

pub open spec fn tree_fields_depth(s: Seq<(String, ParsedExpression)>) -> nat
    decreases s, 0nat,
{
    if s.len() == 0 {
        0
    } else {
        larger(tree_fields_depth(s.drop_last()), tree_depth(s.last().1))
    }
}

/// The lines that printing a parsed expression adds at level `k`: a line naming the
/// expression, then its parts one level deeper.
pub open spec fn tree_lines(e: ParsedExpression, k: nat) -> Seq<PrintedLine>
    decreases e, 1nat,
{
    let j = k + 1;
    match e.value {
        ParsedExpressionKind::Sizeof(t) => seq![(k, "Sizeof("@ + parsed_type_text(t.value) + ")"@)],
        ParsedExpressionKind::StructInstance { struct_type, fields } => seq![
            (k, "StructInstance("@ + parsed_type_text(struct_type.value) + ")"@),
        ] + tree_fields_lines(fields@, j),
        ParsedExpressionKind::Variable(name) => seq![(k, "Var("@ + generic_id_text(name) + ")"@)],
        ParsedExpressionKind::Continue => seq![(k, "Continue"@)],
        ParsedExpressionKind::Break(x) => seq![(k, "Break"@)] + tree_opt_lines(x, j),
        ParsedExpressionKind::Unary { op, expr } => seq![(k, "Unary("@ + parsed_unary_text(op) + ")"@)]
            + tree_lines(*expr, j),
        ParsedExpressionKind::Binary { op, left, right } => seq![
            (k, "Binary("@ + parsed_binary_text(op) + ")"@),
        ] + tree_lines(*left, j) + tree_lines(*right, j),
        ParsedExpressionKind::Literal(lit) => seq![(k, "Literal("@ + parsed_literal_text(lit) + ")"@)],
        ParsedExpressionKind::Block { expressions, .. } => seq![(k, "{"@)] + tree_all_lines(
            expressions@,
            j,
        ) + seq![(k, "}"@)],
        ParsedExpressionKind::Return(x) => seq![(k, "Return"@)] + tree_opt_lines(x, j),
        ParsedExpressionKind::Loop { init, condition, step, loop_body, else_expr } => seq![
            (k, "Loop"@),
        ] + tree_opt_lines(init, j) + tree_opt_lines(condition, j) + tree_opt_lines(step, j)
            + tree_lines(*loop_body, j) + tree_opt_lines(else_expr, j),
        ParsedExpressionKind::Declaration { var_type, var_name, value } => seq![
            (k, "Declaration("@ + match var_type {
                Some(t) => parsed_type_text(t.value),
                None => "var"@,
            } + ", "@ + var_name@ + ")"@),
        ] + tree_lines(*value, j),
        ParsedExpressionKind::If { condition, then_block, else_expr } => seq![(k, "If"@)]
            + tree_lines(*condition, j) + tree_lines(*then_block, j) + match else_expr {
            Some(x) => seq![(j, "Else"@)] + tree_lines(*x, j),
            None => Seq::empty(),
        },
        ParsedExpressionKind::FunctionCall { expr, args } => seq![(k, "FunctionCall"@)] + tree_lines(
            *expr,
            j,
        ) + tree_all_lines(args@, j),
        ParsedExpressionKind::Tuple(elements) => seq![(k, "Tuple"@)] + tree_all_lines(elements@, j),
    }
}

pub open spec fn tree_opt_lines(x: Option<Box<ParsedExpression>>, k: nat) -> Seq<PrintedLine>
    decreases x, 2nat,
{
    match x {
        Some(b) => tree_lines(*b, k),
        None => Seq::empty(),
    }
}

pub open spec fn tree_all_lines(s: Seq<ParsedExpression>, k: nat) -> Seq<PrintedLine>
    decreases s, 0nat,
{
    if s.len() == 0 {
        Seq::empty()
    } else {
        tree_all_lines(s.drop_last(), k) + tree_lines(s.last(), k)
    }
}

pub open spec fn tree_fields_lines(s: Seq<(String, ParsedExpression)>, k: nat) -> Seq<PrintedLine>
    decreases s, 0nat,
{
    if s.len() == 0 {
        Seq::empty()
    } else {
        tree_fields_lines(s.drop_last(), k) + seq![(k, s.last().0@ + ": "@)] + tree_lines(s.last().1, k)
    }
}

/// The lines of a function signature: name and generic parameters, each parameter one
/// level deeper, then the return type.
pub open spec fn signature_lines(sig: ParsedFunctionSignature, k: nat) -> Seq<PrintedLine> {
    seq![(k, "fn "@ + sig.function_name@ + "<"@ + name_list_text(sig.generic_params@) + ">("@)]
        + Seq::new(
        sig.params@.len(),
        |i: int| (k + 1, sig.params@[i].1@ + ": "@ + parsed_type_text(sig.params@[i].0.value)),
    ) + seq![(k, ") -> "@ + parsed_type_text(sig.return_type.value))]
}

/// The lines of a function: its signature, then its body.
pub open spec fn function_lines(f: ParsedFunction, k: nat) -> Seq<PrintedLine> {
    signature_lines(f.signature, k) + tree_lines(f.body, k)
}

pub open spec fn function_depth(f: ParsedFunction) -> nat {
    larger(1, tree_depth(f.body))
}

pub open spec fn functions_lines(s: Seq<Located<ParsedFunction>>, k: nat) -> Seq<PrintedLine>
    decreases s.len(),
{
    if s.len() == 0 {
        Seq::empty()
    } else {
        functions_lines(s.drop_last(), k) + function_lines(s.last().value, k)
    }
}

pub open spec fn functions_depth(s: Seq<Located<ParsedFunction>>) -> nat
    decreases s.len(),
{
    if s.len() == 0 {
        0
    } else {
        larger(functions_depth(s.drop_last()), function_depth(s.last().value))
    }
}

pub open spec fn signatures_lines(s: Seq<Located<ParsedFunctionSignature>>, k: nat) -> Seq<PrintedLine>
    decreases s.len(),
{
    if s.len() == 0 {
        Seq::empty()
    } else {
        signatures_lines(s.drop_last(), k) + signature_lines(s.last().value, k)
    }
}

/// The lines of an import: one per imported item, or one for a whole module.
pub open spec fn import_lines(i: ParsedImport, k: nat) -> Seq<PrintedLine> {
    match i.imported_objects {
        Some(objects) => Seq::new(
            objects@.len(),
            |n: int| (k, "Import("@ + objects@[n]@ + ", "@ + path_text(i.module_id.path@) + ")"@),
        ),
        None => seq![(k, "Import(*) from "@ + path_text(i.module_id.path@))],
    }
}

pub open spec fn imports_lines(s: Seq<Located<ParsedImport>>, k: nat) -> Seq<PrintedLine>
    decreases s.len(),
{
    if s.len() == 0 {
        Seq::empty()
    } else {
        imports_lines(s.drop_last(), k) + import_lines(s.last().value, k)
    }
}

/// The lines of a struct declaration.
pub open spec fn struct_lines(d: ParsedStructDefinition, k: nat) -> Seq<PrintedLine> {
    seq![(k, "struct "@ + d.struct_name@ + " {"@)] + Seq::new(
        d.fields@.len(),
        |i: int| (k + 1, d.fields@[i].0@ + ": "@ + parsed_type_text(d.fields@[i].1.value) + ","@),
    ) + seq![(k, "}"@)]
}

pub open spec fn structs_lines(s: Seq<Located<ParsedStructDefinition>>, k: nat) -> Seq<PrintedLine>
    decreases s.len(),
{
    if s.len() == 0 {
        Seq::empty()
    } else {
        structs_lines(s.drop_last(), k) + struct_lines(s.last().value, k)
    }
}

pub open spec fn alias_line(a: ParsedTypeAlias, k: nat) -> PrintedLine {
    (k, "TypeAlias("@ + a.alias@ + ", "@ + parsed_type_text(a.aliased_type.value) + ")"@)
}

pub open spec fn aliases_lines(s: Seq<Located<ParsedTypeAlias>>, k: nat) -> Seq<PrintedLine> {
    Seq::new(s.len(), |i: int| alias_line(s[i].value, k))
}

/// The lines of an enum declaration: its name, then each variant with its value.
pub open spec fn enum_lines(d: ParsedEnumDefinition, k: nat) -> Seq<PrintedLine> {
    seq![(k, "Enum("@ + d.enum_name@ + ")"@)] + Seq::new(
        d.variants@.len(),
        |i: int| (k + 1, d.variants@[i].0@ + ": "@ + int_text(d.variants@[i].1 as int)),
    )
}

pub open spec fn enums_lines(s: Seq<Located<ParsedEnumDefinition>>, k: nat) -> Seq<PrintedLine>
    decreases s.len(),
{
    if s.len() == 0 {
        Seq::empty()
    } else {
        enums_lines(s.drop_last(), k) + enum_lines(s.last().value, k)
    }
}

/// The lines of a trait declaration: its name and generics, then its signatures one
/// level deeper.
pub open spec fn trait_definition_lines(t: ParsedTraitDefinition, k: nat) -> Seq<PrintedLine> {
    seq![(k, "trait "@ + t.trait_name@ + "<"@ + name_list_text(t.generics@) + "> {"@)]
        + signatures_lines(t.functions@, k + 1) + seq![(k, "}"@)]
}

pub open spec fn trait_definitions_lines(s: Seq<Located<ParsedTraitDefinition>>, k: nat) -> Seq<
    PrintedLine,
>
    decreases s.len(),
{
    if s.len() == 0 {
        Seq::empty()
    } else {
        trait_definitions_lines(s.drop_last(), k) + trait_definition_lines(s.last().value, k)
    }
}

/// The lines of a trait implementation: trait and type, then its functions one level
/// deeper.
pub open spec fn trait_impl_lines(t: ParsedTraitImplementation, k: nat) -> Seq<PrintedLine> {
    seq![(k, "impl "@ + generic_id_text(t.trait_id) + " for "@ + parsed_type_text(t.for_type.value) + " {"@)]
        + functions_lines(t.functions@, k + 1) + seq![(k, "}"@)]
}

pub open spec fn trait_impls_lines(s: Seq<Located<ParsedTraitImplementation>>, k: nat) -> Seq<
    PrintedLine,
>
    decreases s.len(),
{
    if s.len() == 0 {
        Seq::empty()
    } else {
        trait_impls_lines(s.drop_last(), k) + trait_impl_lines(s.last().value, k)
    }
}

pub open spec fn trait_impls_depth(s: Seq<Located<ParsedTraitImplementation>>) -> nat
    decreases s.len(),
{
    if s.len() == 0 {
        0
    } else {
        larger(trait_impls_depth(s.drop_last()), 1 + functions_depth(s.last().value.functions@))
    }
}

/// How many indentation levels printing a module goes below its start.
pub open spec fn module_depth(m: ParsedModule) -> nat {
    larger(2, larger(functions_depth(m.functions@), trait_impls_depth(m.trait_implementations@)))
}

/// The lines of a module: its path, its imports, then its structs, type aliases, enums,
/// traits, trait implementations and functions.
pub open spec fn module_lines(m: ParsedModule, k: nat) -> Seq<PrintedLine> {
    seq![(k, "Module("@ + path_text(m.module_id.path@) + ")"@)] + imports_lines(m.imports@, k)
        + structs_lines(m.struct_definitions@, k) + aliases_lines(m.type_aliases@, k) + enums_lines(
        m.enums@,
        k,
    ) + trait_definitions_lines(m.trait_definitions@, k) + trait_impls_lines(
        m.trait_implementations@,
        k,
    ) + functions_lines(m.functions@, k)
}

} // verus!
