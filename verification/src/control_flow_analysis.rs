use vstd::prelude::*;
use crate::analysis_spec::{
    all_fields_wf, all_parsed_wf, env_of, field_names_distinct, fields_complete, has_field,
    last_field_index, last_mismatch, expected_field_type, opt_parsed_wf, parsed_wf, spec_analyze,
    spec_analyze_assignable, spec_analyze_block, spec_analyze_call, spec_analyze_declaration,
    spec_analyze_fields, spec_analyze_if, spec_analyze_loop, spec_analyze_opt, spec_analyze_seq,
    spec_analyze_binary, spec_analyze_assignment, spec_analyze_operation, spec_analyze_struct_instance, spec_analyze_tuple, spec_analyze_unary,
    spec_determine_function_call, spec_call_by_name, struct_args, tuple_fields, Env, Locals,
};
use crate::analysis_steps::{
    analyze_generic_args, assignable_member, determine_variable_expression, finish_assign,
    finish_binary, finish_loop, finish_unary, is_bool_type, is_integer_type, is_unit_type,
    pair_view, res_view, resolve_parsed_type, target_view,
};
use crate::analyzed_expression::{
    expr_views, field_views, lemma_expr_views, lemma_field_views, opt_view, AnalyzedConstant,
    AnalyzedExpression, AnalyzedExpressionKind, AnalyzedFunctionCallType, AnalyzedLiteral,
    AssignableExpression, AssignableExpressionKind, ExprView,
};
use crate::analyzed_type::{
    clone_type, clone_types, lemma_views_of, substitute_generic_type, type_lists_equal,
    types_equal, views_of, AnalyzedTypeId, TypeView,
};
use crate::analyzer_context::{AnalyzerContext, LocalVariable};
use crate::analyzer_error::{AnalyzerError, AnalyzerErrorKind, make_error, make_error1, make_error2};
use crate::analyzed_text::type_string;
use crate::location::Location;
use crate::parsed_expression::{
    BinaryOp, ParsedExpression, ParsedExpressionKind, ParsedLiteral, UnaryOp,
};
use crate::text::{append_u64, nat_text, text};
use crate::analysis_parts::{
    all_view, analyze_literal, call_by_name, call_through_value, check_fields_complete, field_name_list, field_values,
    fields_view, finish_struct, has_extra_field, last_field_position, lemma_all_fields_wf,
    lemma_all_parsed_wf, lemma_expr_views_push, lemma_fields_error_stays, lemma_seq_error_stays,
    name_tuple_elements, opt_res_view, string_views, types_of,
};
use crate::expression_analyzer::analyze;
use crate::sequence_analysis::{analyze_all, analyze_opt};

verus! {

pub(crate) fn analyze_block(context: &mut AnalyzerContext, e: &ParsedExpression, in_loop: bool) -> (r: Result<
    AnalyzedExpression,
    AnalyzerError,
>)
    requires
        parsed_wf(*e),
    ensures
        env_of(*final(context)) == env_of(*old(context)),
        (res_view(r), final(context).local_variables@) == spec_analyze_block(
            env_of(*old(context)),
            old(context).local_variables@,
            *e,
            in_loop,
        ),
    decreases e, 1nat,
{
    proof {
        reveal_with_fuel(spec_analyze_block, 1);
    }
    match &e.value {
        ParsedExpressionKind::Block { expressions, returns_value } => {
            let saved = context.local_variables.duplicate();
            context.local_variables.leave_current_scope();
            let analyzed = match analyze_all(context, expressions, in_loop) {
                Ok(v) => v,
                Err(err) => return Err(err),
            };
            context.local_variables = saved;
            proof {
                lemma_expr_views(analyzed@);
            }
            let ty = if *returns_value && analyzed.len() > 0 {
                clone_type(&analyzed[analyzed.len() - 1].ty)
            } else {
                AnalyzedTypeId::Unit
            };
            Ok(
                AnalyzedExpression {
                    kind: AnalyzedExpressionKind::Block {
                        expressions: analyzed,
                        returns_value: *returns_value,
                    },
                    ty,
                    location: e.location,
                },
            )
        },
        _ => Err(make_error(AnalyzerErrorKind::NotAssignable, &e.location)),
    }
}

pub(crate) fn analyze_if(context: &mut AnalyzerContext, e: &ParsedExpression, in_loop: bool) -> (r: Result<
    AnalyzedExpression,
    AnalyzerError,
>)
    requires
        parsed_wf(*e),
    ensures
        env_of(*final(context)) == env_of(*old(context)),
        (res_view(r), final(context).local_variables@) == spec_analyze_if(
            env_of(*old(context)),
            old(context).local_variables@,
            *e,
            in_loop,
        ),
    decreases e, 1nat,
{
    proof {
        reveal_with_fuel(spec_analyze_if, 1);
    }
    match &e.value {
        ParsedExpressionKind::If { condition, then_block, else_expr } => {
            let c = match analyze(context, condition, in_loop, None) {
                Ok(v) => v,
                Err(err) => return Err(err),
            };
            let t = match analyze(context, then_block, in_loop, None) {
                Ok(v) => v,
                Err(err) => return Err(err),
            };
            let el = match analyze_opt(context, else_expr, in_loop) {
                Ok(v) => v,
                Err(err) => return Err(err),
            };
            if !is_bool_type(&c.ty) {
                return Err(make_error(AnalyzerErrorKind::IfConditionNotBool, &e.location));
            }
            let ty = match &el {
                Some(x) => {
                    if !types_equal(&t.ty, &x.ty) {
                        return Err(
                            make_error2(
                                AnalyzerErrorKind::IfBranchTypeMismatch,
                                &e.location,
                                type_string(&t.ty),
                                type_string(&x.ty),
                            ),
                        );
                    }
                    clone_type(&t.ty)
                },
                None => {
                    if !is_unit_type(&t.ty) {
                        return Err(make_error1(AnalyzerErrorKind::IfWithoutElseNotUnit, &e.location, type_string(&t.ty)));
                    }
                    AnalyzedTypeId::Unit
                },
            };
            Ok(
                AnalyzedExpression {
                    kind: AnalyzedExpressionKind::If {
                        condition: Box::new(c),
                        then_block: Box::new(t),
                        else_expr: el,
                    },
                    ty,
                    location: e.location,
                },
            )
        },
        _ => Err(make_error(AnalyzerErrorKind::NotAssignable, &e.location)),
    }
}

#[verifier::rlimit(60)]
pub(crate) fn analyze_loop(context: &mut AnalyzerContext, e: &ParsedExpression, in_loop: bool) -> (r: Result<
    AnalyzedExpression,
    AnalyzerError,
>)
    requires
        parsed_wf(*e),
    ensures
        env_of(*final(context)) == env_of(*old(context)),
        (res_view(r), final(context).local_variables@) == spec_analyze_loop(
            env_of(*old(context)),
            old(context).local_variables@,
            *e,
            in_loop,
        ),
    decreases e, 1nat,
{
    proof {
        reveal_with_fuel(spec_analyze_loop, 1);
    }
    match &e.value {
        ParsedExpressionKind::Loop { init, condition, step, loop_body, else_expr } => {
            let i = match analyze_opt(context, init, in_loop) {
                Ok(v) => v,
                Err(err) => return Err(err),
            };
            let c = match analyze_opt(context, condition, false) {
                Ok(v) => v,
                Err(err) => return Err(err),
            };
            let s = match analyze_opt(context, step, false) {
                Ok(v) => v,
                Err(err) => return Err(err),
            };
            let b = match analyze(context, loop_body, true, None) {
                Ok(v) => v,
                Err(err) => return Err(err),
            };
            let el = match analyze_opt(context, else_expr, in_loop) {
                Ok(v) => v,
                Err(err) => return Err(err),
            };
            finish_loop(&e.location, i, c, s, b, el)
        },
        _ => Err(make_error(AnalyzerErrorKind::NotAssignable, &e.location)),
    }
}

} // verus!
