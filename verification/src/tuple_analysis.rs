use vstd::prelude::*;
use crate::analysis_spec::{env_of, parsed_wf, spec_analyze_tuple};
use crate::analysis_parts::{name_tuple_elements, types_of};
use crate::analysis_steps::res_view;
use crate::analyzed_expression::{AnalyzedExpression, AnalyzedExpressionKind};
use crate::analyzer_context::AnalyzerContext;
use crate::analyzer_error::{AnalyzerError, AnalyzerErrorKind, make_error};
use crate::sequence_analysis::analyze_all;
use crate::parsed_expression::{ParsedExpression, ParsedExpressionKind};

verus! {

pub(crate) fn analyze_tuple(context: &mut AnalyzerContext, e: &ParsedExpression, in_loop: bool) -> (r: Result<
    AnalyzedExpression,
    AnalyzerError,
>)
    requires
        parsed_wf(*e),
    ensures
        env_of(*final(context)) == env_of(*old(context)),
        (res_view(r), final(context).local_variables@) == spec_analyze_tuple(
            env_of(*old(context)),
            old(context).local_variables@,
            *e,
            in_loop,
        ),
    decreases e, 1nat,
{
    proof {
        reveal_with_fuel(spec_analyze_tuple, 1);
    }
    let location = e.location;
    match &e.value {
        ParsedExpressionKind::Tuple(elements) => {

            let analyzed = match analyze_all(context, elements, in_loop) {
                Ok(v) => v,
                Err(err) => return Err(err),
            };
            let element_types = types_of(&analyzed);
            let ty = context.types.get_tuple_type(&element_types);
            let fields = name_tuple_elements(analyzed);
            Ok(AnalyzedExpression { kind: AnalyzedExpressionKind::StructInstance { fields }, ty, location })
        },
        _ => Err(make_error(AnalyzerErrorKind::NotAssignable, &location)),
    }
}

} // verus!
