use vstd::prelude::*;
use crate::analysis_spec::{
    all_fields_wf, all_parsed_wf, env_of, field_names_distinct, fields_complete, has_field,
    last_field_index, last_mismatch, expected_field_type, opt_parsed_wf, parsed_wf, spec_analyze,
    spec_analyze_assignable, spec_analyze_block, spec_analyze_call, spec_analyze_declaration,
    spec_analyze_fields, spec_analyze_if, spec_analyze_loop, spec_analyze_opt, spec_analyze_seq,
    spec_analyze_binary, spec_analyze_assignment, spec_analyze_operation, spec_analyze_struct_instance, spec_analyze_tuple, spec_analyze_unary,
    spec_determine_function_call, spec_call_by_name, struct_args, tuple_fields, Env, Locals,
};
use crate::analysis_steps::{
    analyze_generic_args, assignable_member, determine_variable_expression, finish_assign,
    finish_binary, finish_loop, finish_unary, is_bool_type, is_integer_type, is_unit_type,
    pair_view, res_view, resolve_parsed_type, target_view,
};
use crate::analyzed_expression::{
    expr_views, field_views, lemma_expr_views, lemma_field_views, opt_view, AnalyzedConstant,
    AnalyzedExpression, AnalyzedExpressionKind, AnalyzedFunctionCallType, AnalyzedLiteral,
    AssignableExpression, AssignableExpressionKind, ExprView,
};
use crate::analyzed_type::{
    clone_type, clone_types, lemma_views_of, substitute_generic_type, type_lists_equal,
    types_equal, views_of, AnalyzedTypeId, TypeView,
};
use crate::analyzer_context::{AnalyzerContext, LocalVariable};
use crate::analyzer_error::{AnalyzerError, AnalyzerErrorKind, ErrorView};
use crate::location::Location;
use crate::parsed_expression::{
    BinaryOp, ParsedExpression, ParsedExpressionKind, ParsedLiteral, UnaryOp,
};
use crate::text::{append_u64, nat_text, text};
use crate::analysis_parts::{
    all_view, analyze_literal, call_by_name, call_through_value, check_fields_complete, field_name_list, field_values,
    fields_view, finish_struct, has_extra_field, last_field_position, lemma_all_fields_wf,
    lemma_all_parsed_wf, lemma_expr_views_push, lemma_fields_error_stays, lemma_seq_error_stays,
    name_tuple_elements, opt_res_view, string_views, types_of,
};
use crate::expression_analyzer::{analyze};


verus! {

/// The values of the fields of a struct instance, in declaration order, each analyzed
/// from the last given field of its name.
pub(crate) fn analyze_fields(
    context: &mut AnalyzerContext,
    fields: &Vec<(String, ParsedExpression)>,
    names: &Vec<String>,
    in_loop: bool,
) -> (r: Result<Vec<(String, AnalyzedExpression)>, AnalyzerError>)
    requires
        all_fields_wf(fields@, fields@.len()),
        fields_complete(string_views(names@), fields@),
    ensures
        env_of(*final(context)) == env_of(*old(context)),
        (fields_view(r), final(context).local_variables@) == spec_analyze_fields(
            env_of(*old(context)),
            old(context).local_variables@,
            fields@,
            string_views(names@),
            names@.len(),
            in_loop,
        ),
        r is Ok ==> r->Ok_0@.len() == names@.len() && forall|k: int|
            0 <= k < names@.len() ==> #[trigger] r->Ok_0@[k].0@ == names@[k]@,
    decreases fields, 0nat,
{
    proof {
        reveal_with_fuel(spec_analyze_fields, 1);
    }
    let ghost env = env_of(*context);
    let ghost l0 = context.local_variables@;
    let ghost sv = string_views(names@);
    proof {
        lemma_all_fields_wf(fields@, fields@.len());
    }
    let mut out: Vec<(String, AnalyzedExpression)> = Vec::new();
    assert(field_values(out@) =~= Seq::<ExprView>::empty());
    let mut k: usize = 0;
    while k < names.len()
        invariant
            k <= names@.len(),
            env == env_of(*context),
            env == env_of(*old(context)),
            l0 == old(context).local_variables@,
            sv == string_views(names@),
            fields_complete(sv, fields@),
            forall|j: int| 0 <= j < fields@.len() ==> parsed_wf(#[trigger] fields@[j].1),
            out@.len() == k,
            forall|m: int| 0 <= m < k ==> #[trigger] out@[m].0@ == names@[m]@,
            spec_analyze_fields(env, l0, fields@, sv, k as nat, in_loop) == (
                Ok::<Seq<ExprView>, ErrorView>(field_values(out@)),
                context.local_variables@,
            ),
        decreases names@.len() - k,
    {
        assert(has_field(fields@, sv[k as int]));
        proof {
            reveal_with_fuel(spec_analyze_fields, 1);
        }
        let j = last_field_position(fields, &names[k]);
        proof {
            assert(decreases_to!(fields => fields@[j as int].1));
        }
        match analyze(context, &fields[j].1, in_loop, None) {
            Ok(v) => {
                let ghost before = out@;
                out.push((names[k].clone(), v));
                assert(field_values(out@) =~= field_values(before).push(v@));
            },
            Err(err) => {
                proof {
                    lemma_fields_error_stays(env, l0, fields@, sv, (k + 1) as nat, names@.len(), in_loop);
                }
                return Err(err);
            },
        }
        k += 1;
    }
    Ok(out)
}

/// The field values of a struct instance whose fields are complete, then the checks on
/// their types.
pub(crate) fn analyze_struct_values(
    context: &mut AnalyzerContext,
    fields: &Vec<(String, ParsedExpression)>,
    resolved: AnalyzedTypeId,
    names: &Vec<String>,
    in_loop: bool,
    location: &Location,
) -> (r: Result<AnalyzedExpression, AnalyzerError>)
    requires
        all_fields_wf(fields@, fields@.len()),
        fields_complete(string_views(names@), fields@),
        old(context).types.spec_struct_of_type(resolved@) is Some,
        string_views(names@) == old(context).types.structs@[old(
            context,
        ).types.spec_struct_of_type(resolved@).unwrap()].field_names(),
    ensures
        env_of(*final(context)) == env_of(*old(context)),
        ({
            let (fr, l1) = spec_analyze_fields(
                env_of(*old(context)),
                old(context).local_variables@,
                fields@,
                string_views(names@),
                names@.len(),
                in_loop,
            );
            (res_view(r), final(context).local_variables@) == (
                crate::analysis_spec::spec_finish_struct(
                    env_of(*old(context)),
                    old(context).types.spec_struct_of_type(resolved@).unwrap(),
                    resolved@,
                    string_views(names@),
                    fr,
                    *location,
                ),
                l1,
            )
        }),
    decreases fields, 1nat,
{
    let values = match analyze_fields(context, fields, names, in_loop) {
        Ok(v) => v,
        Err(err) => return Err(err),
    };
    finish_struct(context, resolved, names, values, location)
}

} // verus!
