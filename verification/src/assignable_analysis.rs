use vstd::prelude::*;
use crate::analysis_spec::{
    all_fields_wf, all_parsed_wf, env_of, field_names_distinct, fields_complete, has_field,
    last_field_index, last_mismatch, expected_field_type, opt_parsed_wf, parsed_wf, spec_analyze,
    spec_analyze_assignable, spec_analyze_block, spec_analyze_call, spec_analyze_declaration,
    spec_analyze_fields, spec_analyze_if, spec_analyze_loop, spec_analyze_opt, spec_analyze_seq,
    spec_analyze_binary, spec_analyze_assignment, spec_analyze_operation, spec_analyze_struct_instance, spec_analyze_tuple, spec_analyze_unary,
    spec_determine_function_call, spec_call_by_name, struct_args, tuple_fields, Env, Locals,
};
use crate::analysis_steps::{
    analyze_generic_args, assignable_member, determine_variable_expression, finish_assign,
    finish_binary, finish_loop, finish_unary, is_bool_type, is_integer_type, is_unit_type,
    pair_view, res_view, resolve_parsed_type, target_view,
};
use crate::analyzed_expression::{
    expr_views, field_views, lemma_expr_views, lemma_field_views, opt_view, AnalyzedConstant,
    AnalyzedExpression, AnalyzedExpressionKind, AnalyzedFunctionCallType, AnalyzedLiteral,
    AssignableExpression, AssignableExpressionKind, ExprView,
};
use crate::analyzed_type::{
    clone_type, clone_types, lemma_views_of, substitute_generic_type, type_lists_equal,
    types_equal, views_of, AnalyzedTypeId, TypeView,
};
use crate::analyzer_context::{AnalyzerContext, LocalVariable};
use crate::analyzer_error::{AnalyzerError, AnalyzerErrorKind, make_error};
use crate::location::Location;
use crate::parsed_expression::{
    BinaryOp, ParsedExpression, ParsedExpressionKind, ParsedLiteral, UnaryOp,
};
use crate::text::{append_u64, nat_text, text};
use crate::analysis_parts::{
    all_view, analyze_literal, call_by_name, call_through_value, check_fields_complete, field_name_list, field_values,
    fields_view, finish_struct, has_extra_field, last_field_position, lemma_all_fields_wf,
    lemma_all_parsed_wf, lemma_expr_views_push, lemma_fields_error_stays, lemma_seq_error_stays,
    name_tuple_elements, opt_res_view, string_views, types_of,
};
use crate::expression_analyzer::{analyze};

verus! {

/// The place an expression denotes, for borrowing and assignment: a local variable, a
/// dereferenced pointer, a field of a place, or an element of an array.
pub(crate) fn analyze_assignable(context: &mut AnalyzerContext, e: &ParsedExpression) -> (r: Result<
    AssignableExpression,
    AnalyzerError,
>)
    requires
        parsed_wf(*e),
    ensures
        env_of(*final(context)) == env_of(*old(context)),
        (target_view(r), final(context).local_variables@) == spec_analyze_assignable(
            env_of(*old(context)),
            old(context).local_variables@,
            *e,
        ),
    decreases e, 1nat,
{
    proof {
        reveal_with_fuel(spec_analyze_assignable, 1);
    }
    match &e.value {
        ParsedExpressionKind::Variable(id) => {
            let name = &id.id.item_id.item_name;
            if id.id.is_module_local && id.generic_args.len() == 0 {
                match context.local_variables.get(name) {
                    Some(v) => {
                        return Ok(
                            AssignableExpression {
                                kind: AssignableExpressionKind::LocalVariable(name.clone()),
                                ty: clone_type(&v.ty),
                            },
                        );
                    },
                    None => {},
                }
            }
            Err(make_error(AnalyzerErrorKind::NotAssignable, &e.location))
        },
        ParsedExpressionKind::Unary { op: UnaryOp::Dereference, expr } => {
            let v = match analyze(context, expr, false, None) {
                Ok(v) => v,
                Err(err) => return Err(err),
            };
            let inner = match &v.ty {
                AnalyzedTypeId::Pointer(inner) => clone_type(inner),
                _ => {
                    return Err(make_error(AnalyzerErrorKind::DereferenceNotPointer, &e.location));
                },
            };
            let ghost vv = v@;
            let a = AssignableExpression {
                kind: AssignableExpressionKind::Dereference(Box::new(v)),
                ty: inner,
            };
            assert(a@.kind == crate::analyzed_expression::AssignableKindView::Dereference(Box::new(vv)));
            Ok(a)
        },
        ParsedExpressionKind::Unary { op: UnaryOp::Member(member), expr } => {
            let a = match analyze_assignable(context, expr) {
                Ok(a) => a,
                Err(err) => return Err(err),
            };
            assignable_member(context, member, &expr.location, a)
        },
        ParsedExpressionKind::Binary { op: BinaryOp::Index, left, right } => {
            let arr = match analyze(context, left, false, None) {
                Ok(v) => v,
                Err(err) => return Err(err),
            };
            let index = match analyze(context, right, false, None) {
                Ok(v) => v,
                Err(err) => return Err(err),
            };
            if !is_integer_type(&index.ty) {
                return Err(make_error(AnalyzerErrorKind::IndexNotInteger, &right.location));
            }
            let inner = match &arr.ty {
                AnalyzedTypeId::Pointer(inner) => clone_type(inner),
                _ => {
                    return Err(make_error(AnalyzerErrorKind::IndexNotPointer, &left.location));
                },
            };
            let ghost av = arr@;
            let ghost iv = index@;
            let a = AssignableExpression {
                kind: AssignableExpressionKind::ArrayIndex(Box::new(arr), Box::new(index)),
                ty: inner,
            };
            assert(a@.kind == crate::analyzed_expression::AssignableKindView::ArrayIndex(
                Box::new(av),
                Box::new(iv),
            ));
            Ok(a)
        },
        _ => Err(make_error(AnalyzerErrorKind::NotAssignable, &e.location)),
    }
}

} // verus!
