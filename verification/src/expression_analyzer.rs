use vstd::prelude::*;
use crate::analysis_spec::{
    all_fields_wf, all_parsed_wf, env_of, field_names_distinct, fields_complete, has_field,
    last_field_index, last_mismatch, expected_field_type, opt_parsed_wf, parsed_wf, spec_analyze,
    spec_analyze_assignable, spec_analyze_block, spec_analyze_call, spec_analyze_declaration,
    spec_analyze_fields, spec_analyze_if, spec_analyze_loop, spec_analyze_opt, spec_analyze_seq,
    spec_analyze_binary, spec_analyze_assignment, spec_analyze_operation, spec_analyze_struct_instance, spec_analyze_tuple, spec_analyze_unary,
    spec_determine_function_call, spec_call_by_name, struct_args, tuple_fields, Env, Locals,
};
use crate::analysis_steps::{
    analyze_generic_args, assignable_member, determine_variable_expression, finish_assign,
    finish_binary, finish_loop, finish_unary, is_bool_type, is_integer_type, is_unit_type,
    pair_view, res_view, resolve_parsed_type, target_view,
};
use crate::analyzed_expression::{
    expr_views, field_views, lemma_expr_views, lemma_field_views, opt_view, AnalyzedConstant,
    AnalyzedExpression, AnalyzedExpressionKind, AnalyzedFunctionCallType, AnalyzedLiteral,
    AssignableExpression, AssignableExpressionKind, ExprView,
};
use crate::analyzed_type::{
    clone_type, clone_types, lemma_views_of, substitute_generic_type, type_lists_equal,
    types_equal, views_of, AnalyzedTypeId, TypeView,
};
use crate::analyzer_context::{AnalyzerContext, LocalVariable};
use crate::analyzer_error::{AnalyzerError, AnalyzerErrorKind, make_error, make_error1, make_error2};
use crate::analyzed_text::type_string;
use crate::parsed_text::parsed_type_string;
use crate::location::Location;
use crate::parsed_expression::{
    BinaryOp, ParsedExpression, ParsedExpressionKind, ParsedLiteral, UnaryOp,
};
use crate::text::{append_u64, nat_text, text};
use crate::analysis_parts::{
    all_view, analyze_literal, call_by_name, call_through_value, check_fields_complete, field_name_list, field_values,
    fields_view, finish_struct, has_extra_field, last_field_position, lemma_all_fields_wf,
    lemma_all_parsed_wf, lemma_expr_views_push, lemma_fields_error_stays, lemma_seq_error_stays,
    name_tuple_elements, opt_res_view, string_views, types_of,
};
use crate::call_analysis::{analyze_call};
use crate::sequence_analysis::{analyze_all, analyze_opt};
use crate::control_flow_analysis::{analyze_block, analyze_if, analyze_loop};
use crate::declaration_analysis::{analyze_declaration};
use crate::operator_analysis::{analyze_binary, analyze_unary};
use crate::struct_analysis::{analyze_struct_instance};
use crate::tuple_analysis::{analyze_tuple};

verus! {

/// Analyzes an expression of a function body: checks its types and resolves its names
/// against the context, and gives the analyzed expression. The local variables of the
/// context are those in scope; a declaration adds one, and a block's declarations are
/// gone after it. On an error the analysis stops at the first error, in evaluation order.
pub fn analyze_expression(context: &mut AnalyzerContext, expression: &ParsedExpression) -> (r:
    Result<AnalyzedExpression, AnalyzerError>)
    requires
        parsed_wf(*expression),
    ensures
        env_of(*final(context)) == env_of(*old(context)),
        (res_view(r), final(context).local_variables@) == spec_analyze(
            env_of(*old(context)),
            old(context).local_variables@,
            *expression,
            false,
            None,
        ),
{
    analyze(context, expression, false, None)
}

pub(crate) fn analyze(
    context: &mut AnalyzerContext,
    e: &ParsedExpression,
    in_loop: bool,
    hint: Option<&AnalyzedTypeId>,
) -> (r: Result<AnalyzedExpression, AnalyzerError>)
    requires
        parsed_wf(*e),
    ensures
        env_of(*final(context)) == env_of(*old(context)),
        (res_view(r), final(context).local_variables@) == spec_analyze(
            env_of(*old(context)),
            old(context).local_variables@,
            *e,
            in_loop,
            crate::break_check::opt_ref_view(hint),
        ),
    decreases e, 2nat,
{
    proof {
        reveal_with_fuel(spec_analyze, 1);
    }
    let location = e.location;
    match &e.value {
        ParsedExpressionKind::Block { .. } => analyze_block(context, e, in_loop),
        ParsedExpressionKind::Return(maybe_expr) => {
            let v = match analyze_opt(context, maybe_expr, in_loop) {
                Ok(v) => v,
                Err(err) => return Err(err),
            };
            let return_ty = match &v {
                Some(x) => clone_type(&x.ty),
                None => AnalyzedTypeId::Unit,
            };
            if !types_equal(&return_ty, &context.return_type) {
                return Err(
                    make_error2(
                        AnalyzerErrorKind::ReturnTypeMismatch,
                        &location,
                        type_string(&return_ty),
                        type_string(&context.return_type),
                    ),
                );
            }
            Ok(
                AnalyzedExpression {
                    kind: AnalyzedExpressionKind::Return(v),
                    ty: AnalyzedTypeId::Unit,
                    location,
                },
            )
        },
        ParsedExpressionKind::Continue => {
            if !in_loop {
                return Err(make_error(AnalyzerErrorKind::ContinueOutsideLoop, &location));
            }
            Ok(
                AnalyzedExpression {
                    kind: AnalyzedExpressionKind::Continue,
                    ty: AnalyzedTypeId::Unit,
                    location,
                },
            )
        },
        ParsedExpressionKind::Break(maybe_expr) => {
            let v = match analyze_opt(context, maybe_expr, in_loop) {
                Ok(v) => v,
                Err(err) => return Err(err),
            };
            if !in_loop {
                return Err(make_error(AnalyzerErrorKind::BreakOutsideLoop, &location));
            }
            Ok(
                AnalyzedExpression {
                    kind: AnalyzedExpressionKind::Break(v),
                    ty: AnalyzedTypeId::Unit,
                    location,
                },
            )
        },
        ParsedExpressionKind::If { .. } => analyze_if(context, e, in_loop),
        ParsedExpressionKind::Loop { .. } => analyze_loop(context, e, in_loop),
        ParsedExpressionKind::Declaration { .. } => analyze_declaration(context, e, in_loop),
        ParsedExpressionKind::Variable(id) => {
            match determine_variable_expression(context, id, &location, hint) {
                Ok((ty, kind)) => Ok(AnalyzedExpression { kind, ty, location }),
                Err(err) => Err(err),
            }
        },
        ParsedExpressionKind::StructInstance { .. } => analyze_struct_instance(context, e, in_loop),
        ParsedExpressionKind::Literal(lit) => Ok(analyze_literal(lit, &location)),
        ParsedExpressionKind::Unary { .. } => analyze_unary(context, e, in_loop),
        ParsedExpressionKind::Binary { .. } => analyze_binary(context, e, in_loop),
        ParsedExpressionKind::FunctionCall { .. } => analyze_call(context, e, in_loop),
        ParsedExpressionKind::Sizeof(t) => match resolve_parsed_type(context, t) {
            Some(ty) => Ok(
                AnalyzedExpression {
                    kind: AnalyzedExpressionKind::Sizeof(ty),
                    ty: AnalyzedTypeId::Integer(4),
                    location,
                },
            ),
            None => Err(make_error1(AnalyzerErrorKind::SizeofTypeNotFound, &t.location, parsed_type_string(&t.value))),
        },
        ParsedExpressionKind::Tuple(_) => analyze_tuple(context, e, in_loop),
    }
}



} // verus!
