use vstd::prelude::*;
use crate::analysis_spec::{
    all_fields_wf, all_parsed_wf, env_of, field_names_distinct, fields_complete, has_field,
    last_field_index, last_mismatch, expected_field_type, opt_parsed_wf, parsed_wf, spec_analyze,
    spec_analyze_assignable, spec_analyze_block, spec_analyze_call, spec_analyze_declaration,
    spec_analyze_fields, spec_analyze_if, spec_analyze_loop, spec_analyze_opt, spec_analyze_seq,
    spec_analyze_binary, spec_analyze_assignment, spec_analyze_operation, spec_analyze_struct_instance, spec_analyze_tuple, spec_analyze_unary,
    spec_determine_function_call, spec_call_by_name, struct_args, tuple_fields, Env, Locals,
};
use crate::analysis_steps::{
    analyze_generic_args, assignable_member, determine_variable_expression, finish_assign,
    finish_binary, finish_loop, finish_unary, is_bool_type, is_integer_type, is_unit_type,
    pair_view, res_view, resolve_parsed_type, target_view,
};
use crate::analyzed_expression::{
    expr_views, field_views, lemma_expr_views, lemma_field_views, opt_view, AnalyzedConstant,
    AnalyzedExpression, AnalyzedExpressionKind, AnalyzedFunctionCallType, AnalyzedLiteral,
    AssignableExpression, AssignableExpressionKind, ExprView,
};
use crate::analyzed_type::{
    clone_type, clone_types, lemma_views_of, substitute_generic_type, type_lists_equal,
    types_equal, views_of, AnalyzedTypeId, TypeView,
};
use crate::analyzer_context::{AnalyzerContext, LocalVariable};
use crate::analyzer_error::{AnalyzerError, AnalyzerErrorKind, ErrorView};
use crate::location::Location;
use crate::parsed_expression::{
    BinaryOp, ParsedExpression, ParsedExpressionKind, ParsedLiteral, UnaryOp,
};
use crate::text::{append_u64, nat_text, text};
use crate::analysis_parts::{
    all_view, analyze_literal, call_by_name, call_through_value, check_fields_complete, field_name_list, field_values,
    fields_view, finish_struct, has_extra_field, last_field_position, lemma_all_fields_wf,
    lemma_all_parsed_wf, lemma_expr_views_push, lemma_fields_error_stays, lemma_seq_error_stays,
    name_tuple_elements, opt_res_view, string_views, types_of,
};

use crate::expression_analyzer::analyze;

verus! {

pub(crate) fn analyze_opt(context: &mut AnalyzerContext, x: &Option<Box<ParsedExpression>>, in_loop: bool) -> (r:
    Result<Option<Box<AnalyzedExpression>>, AnalyzerError>)
    requires
        opt_parsed_wf(*x),
    ensures
        env_of(*final(context)) == env_of(*old(context)),
        (opt_res_view(r), final(context).local_variables@) == spec_analyze_opt(
            env_of(*old(context)),
            old(context).local_variables@,
            *x,
            in_loop,
        ),
    decreases x, 4nat,
{
    proof {
        reveal_with_fuel(spec_analyze_opt, 1);
    }
    match x {
        Some(b) => match analyze(context, b, in_loop, None) {
            Ok(v) => Ok(Some(Box::new(v))),
            Err(err) => Err(err),
        },
        None => Ok(None),
    }
}

pub(crate) fn analyze_all(context: &mut AnalyzerContext, s: &Vec<ParsedExpression>, in_loop: bool) -> (r: Result<
    Vec<AnalyzedExpression>,
    AnalyzerError,
>)
    requires
        all_parsed_wf(s@, s@.len()),
    ensures
        env_of(*final(context)) == env_of(*old(context)),
        (all_view(r), final(context).local_variables@) == spec_analyze_seq(
            env_of(*old(context)),
            old(context).local_variables@,
            s@,
            s@.len(),
            in_loop,
        ),
    decreases s, 0nat,
{
    proof {
        reveal_with_fuel(spec_analyze_seq, 1);
    }
    let ghost env = env_of(*context);
    let ghost l0 = context.local_variables@;
    proof {
        lemma_all_parsed_wf(s@, s@.len());
        lemma_expr_views(Seq::<AnalyzedExpression>::empty());
    }
    let mut out: Vec<AnalyzedExpression> = Vec::new();
    let mut i: usize = 0;
    while i < s.len()
        invariant
            i <= s@.len(),
            env == env_of(*context),
            env == env_of(*old(context)),
            l0 == old(context).local_variables@,
            forall|j: int| 0 <= j < s@.len() ==> parsed_wf(#[trigger] s@[j]),
            spec_analyze_seq(env, l0, s@, i as nat, in_loop) == (
                Ok::<Seq<ExprView>, ErrorView>(expr_views(out@)),
                context.local_variables@,
            ),
        decreases s@.len() - i,
    {
        proof {
            reveal_with_fuel(spec_analyze_seq, 1);
            assert(decreases_to!(s => s@[i as int]));
        }
        match analyze(context, &s[i], in_loop, None) {
            Ok(v) => {
                proof {
                    lemma_expr_views_push(out@, v);
                }
                out.push(v);
            },
            Err(err) => {
                proof {
                    lemma_seq_error_stays(env, l0, s@, (i + 1) as nat, s@.len(), in_loop);
                }
                return Err(err);
            },
        }
        i += 1;
    }
    proof {
        assert(env_of(*context) == env);
    }
    Ok(out)
}

} // verus!
