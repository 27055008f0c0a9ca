use vstd::prelude::*;
use crate::analysis_spec::{
    all_fields_wf, all_parsed_wf, env_of, field_names_distinct, fields_complete, has_field,
    last_field_index, last_mismatch, expected_field_type, opt_parsed_wf, parsed_wf, spec_analyze,
    spec_analyze_assignable, spec_analyze_block, spec_analyze_call, spec_analyze_declaration,
    spec_analyze_fields, spec_analyze_if, spec_analyze_loop, spec_analyze_opt, spec_analyze_seq,
    spec_analyze_binary, spec_analyze_assignment, spec_analyze_operation, spec_analyze_struct_instance, spec_analyze_tuple, spec_analyze_unary,
    spec_determine_function_call, spec_call_by_name, struct_args, tuple_fields, Env, Locals,
};
use crate::analysis_steps::{
    analyze_generic_args, assignable_member, determine_variable_expression, finish_assign,
    finish_binary, finish_loop, finish_unary, is_bool_type, is_integer_type, is_unit_type,
    pair_view, res_view, resolve_parsed_type, target_view,
};
use crate::analyzed_expression::{
    expr_views, field_views, lemma_expr_views, lemma_field_views, opt_view, AnalyzedConstant,
    AnalyzedExpression, AnalyzedExpressionKind, AnalyzedFunctionCallType, AnalyzedLiteral,
    AssignableExpression, AssignableExpressionKind, ExprView,
};
use crate::analyzed_type::{
    clone_type, clone_types, lemma_views_of, substitute_generic_type, type_lists_equal,
    types_equal, views_of, AnalyzedTypeId, TypeView,
};
use crate::analyzer_context::{AnalyzerContext, LocalVariable};
use crate::analyzer_error::{AnalyzerError, AnalyzerErrorKind, make_error, make_error1, make_error2};
use crate::analyzed_text::type_string;
use crate::parsed_text::parsed_type_string;
use crate::location::Location;
use crate::parsed_expression::{
    BinaryOp, ParsedExpression, ParsedExpressionKind, ParsedLiteral, UnaryOp,
};
use crate::text::{append_u64, nat_text, text};
use crate::analysis_parts::{
    all_view, analyze_literal, call_by_name, call_through_value, check_fields_complete, field_name_list, field_values,
    fields_view, finish_struct, has_extra_field, last_field_position, lemma_all_fields_wf,
    lemma_all_parsed_wf, lemma_expr_views_push, lemma_fields_error_stays, lemma_seq_error_stays,
    name_tuple_elements, opt_res_view, string_views, types_of,
};
use crate::expression_analyzer::{analyze};

verus! {

pub(crate) fn analyze_declaration(context: &mut AnalyzerContext, e: &ParsedExpression, in_loop: bool) -> (r:
    Result<AnalyzedExpression, AnalyzerError>)
    requires
        parsed_wf(*e),
    ensures
        env_of(*final(context)) == env_of(*old(context)),
        (res_view(r), final(context).local_variables@) == spec_analyze_declaration(
            env_of(*old(context)),
            old(context).local_variables@,
            *e,
            in_loop,
        ),
    decreases e, 1nat,
{
    proof {
        reveal_with_fuel(spec_analyze_declaration, 1);
    }
    match &e.value {
        ParsedExpressionKind::Declaration { var_type, var_name, value } => {
            let declared: Option<AnalyzedTypeId> = match var_type {
                Some(t) => match resolve_parsed_type(context, t) {
                    Some(x) => Some(x),
                    None => {
                        return Err(
                            make_error1(AnalyzerErrorKind::DeclarationTypeNotFound, &t.location, parsed_type_string(&t.value)),
                        );
                    },
                },
                None => None,
            };
            let v = match analyze(context, value, in_loop, declared.as_ref()) {
                Ok(v) => v,
                Err(err) => return Err(err),
            };
            match &declared {
                Some(d) => {
                    if !types_equal(&v.ty, d) {
                        return Err(
                            make_error2(
                                AnalyzerErrorKind::DeclarationTypeMismatch,
                                &value.location,
                                type_string(d),
                                type_string(&v.ty),
                            ),
                        );
                    }
                },
                None => {},
            }
            let previous = context.local_variables.insert(
                var_name.clone(),
                LocalVariable { ty: clone_type(&v.ty), is_current_scope: true },
            );
            let redeclared = match previous {
                Some(p) => p.is_current_scope,
                None => false,
            };
            if redeclared {
                return Err(make_error1(AnalyzerErrorKind::VariableAlreadyDeclared, &e.location, var_name.clone()));
            }
            Ok(
                AnalyzedExpression {
                    kind: AnalyzedExpressionKind::Declaration {
                        var_name: var_name.clone(),
                        value: Box::new(v),
                    },
                    ty: AnalyzedTypeId::Unit,
                    location: e.location,
                },
            )
        },
        _ => Err(make_error(AnalyzerErrorKind::NotAssignable, &e.location)),
    }
}

} // verus!
