use vstd::prelude::*;
use crate::analysis_spec::{
    all_fields_wf, all_parsed_wf, env_of, field_names_distinct, fields_complete, has_field,
    last_field_index, last_mismatch, expected_field_type, opt_parsed_wf, parsed_wf, spec_analyze,
    spec_analyze_assignable, spec_analyze_block, spec_analyze_call, spec_analyze_declaration,
    spec_analyze_fields, spec_analyze_if, spec_analyze_loop, spec_analyze_opt, spec_analyze_seq,
    spec_analyze_binary, spec_analyze_assignment, spec_analyze_operation, spec_analyze_struct_instance, spec_analyze_tuple, spec_analyze_unary,
    spec_determine_function_call, spec_call_by_name, struct_args, tuple_fields, Env, Locals,
};
use crate::analysis_steps::{
    analyze_generic_args, assignable_member, determine_variable_expression, finish_assign,
    finish_binary, finish_loop, finish_unary, is_bool_type, is_integer_type, is_unit_type,
    pair_view, res_view, resolve_parsed_type, target_view,
};
use crate::analyzed_expression::{
    expr_views, field_views, lemma_expr_views, lemma_field_views, opt_view, AnalyzedConstant,
    AnalyzedExpression, AnalyzedExpressionKind, AnalyzedFunctionCallType, AnalyzedLiteral,
    AssignableExpression, AssignableExpressionKind, ExprView,
};
use crate::analyzed_type::{
    clone_type, clone_types, lemma_views_of, substitute_generic_type, type_lists_equal,
    types_equal, views_of, AnalyzedTypeId, TypeView,
};
use crate::analyzer_context::{AnalyzerContext, LocalVariable};
use crate::analyzer_error::{AnalyzerError, AnalyzerErrorKind};
use crate::location::Location;
use crate::parsed_expression::{
    BinaryOp, ParsedExpression, ParsedExpressionKind, ParsedLiteral, UnaryOp,
};
use crate::text::{append_u64, nat_text, text};
use crate::analysis_parts::{
    all_view, analyze_literal, call_by_name, call_through_value, check_fields_complete, field_name_list, field_values,
    fields_view, finish_struct, has_extra_field, last_field_position, lemma_all_fields_wf,
    lemma_all_parsed_wf, lemma_expr_views_push, lemma_fields_error_stays, lemma_seq_error_stays,
    name_tuple_elements, opt_res_view, string_views, types_of,
};
use crate::expression_analyzer::analyze;
use crate::sequence_analysis::analyze_all;


verus! {

/// The analysis of a call once its arguments are analyzed: a callee that evaluates to a
/// value of function type accepting exactly the argument types is called through that
/// value; otherwise a named callee is resolved to a function, by its explicit generic
/// arguments or, when none are written and the exact match fails, by inferring them.
#[verifier::rlimit(100)]
pub(crate) fn determine_function_call(
    context: &mut AnalyzerContext,
    expr: &ParsedExpression,
    arg_types: Vec<AnalyzedTypeId>,
    location: &Location,
    analyzed_args: Vec<AnalyzedExpression>,
) -> (r: Result<(AnalyzedTypeId, AnalyzedExpressionKind), AnalyzerError>)
    requires
        parsed_wf(*expr),
    ensures
        env_of(*final(context)) == env_of(*old(context)),
        (pair_view(r), final(context).local_variables@) == spec_determine_function_call(
            env_of(*old(context)),
            old(context).local_variables@,
            *expr,
            views_of(arg_types@),
            *location,
            expr_views(analyzed_args@),
        ),
    decreases expr, 3nat,
{
    proof {
        reveal_with_fuel(spec_determine_function_call, 1);
    }
    let callee = analyze(context, expr, false, None);
    let through_pointer = call_through_value(&callee, &arg_types);
    match through_pointer {
        Some(return_type) => {
            match callee {
                Ok(c) => {
                    return Ok(
                        (
                            return_type,
                            AnalyzedExpressionKind::FunctionCall {
                                call_type: AnalyzedFunctionCallType::FunctionPointer(Box::new(c)),
                                args: analyzed_args,
                            },
                        ),
                    );
                },
                Err(err) => {
                    return Err(err);
                },
            }
        },
        None => {},
    }
    call_by_name(context, expr, arg_types, location, analyzed_args)
}

} // verus!
