use vstd::prelude::*;
use crate::analysis_parts::{lemma_all_fields_wf, lemma_all_parsed_wf};
use crate::analysis_spec::{all_fields_wf, all_parsed_wf, opt_parsed_wf, parsed_wf};
use crate::parsed_expression::{ParsedExpression, ParsedExpressionKind};

verus! {

/// Whether an expression can be handed to the analyzer: every loop with an `else` part
/// has a condition.
pub fn is_well_formed(expr: &ParsedExpression) -> (r: bool)
    ensures
        r == parsed_wf(*expr),
    decreases expr, 1nat,
{
    match &expr.value {
        ParsedExpressionKind::Block { expressions, .. } => all_well_formed(expressions),
        ParsedExpressionKind::Return(x) => opt_well_formed(x),
        ParsedExpressionKind::Continue => true,
        ParsedExpressionKind::Break(x) => opt_well_formed(x),
        ParsedExpressionKind::If { condition, then_block, else_expr } => {
            is_well_formed(condition) && is_well_formed(then_block) && opt_well_formed(else_expr)
        },
        ParsedExpressionKind::Loop { init, condition, step, loop_body, else_expr } => {
            (else_expr.is_none() || condition.is_some()) && opt_well_formed(init)
                && opt_well_formed(condition) && opt_well_formed(step) && is_well_formed(loop_body)
                && opt_well_formed(else_expr)
        },
        ParsedExpressionKind::Declaration { value, .. } => is_well_formed(value),
        ParsedExpressionKind::Variable(_) => true,
        ParsedExpressionKind::StructInstance { fields, .. } => fields_well_formed(fields),
        ParsedExpressionKind::Literal(_) => true,
        ParsedExpressionKind::Unary { expr: inner, .. } => is_well_formed(inner),
        ParsedExpressionKind::Binary { left, right, .. } => is_well_formed(left) && is_well_formed(right),
        ParsedExpressionKind::FunctionCall { expr: callee, args } => {
            is_well_formed(callee) && all_well_formed(args)
        },
        ParsedExpressionKind::Sizeof(_) => true,
        ParsedExpressionKind::Tuple(elements) => all_well_formed(elements),
    }
}

fn opt_well_formed(x: &Option<Box<ParsedExpression>>) -> (r: bool)
    ensures
        r == opt_parsed_wf(*x),
    decreases x, 2nat,
{
    match x {
        Some(e) => is_well_formed(e),
        None => true,
    }
}

fn all_well_formed(expressions: &Vec<ParsedExpression>) -> (r: bool)
    ensures
        r == all_parsed_wf(expressions@, expressions@.len()),
    decreases expressions, 0nat,
{
    let ghost s = expressions@;
    let mut i: usize = 0;
    while i < expressions.len()
        invariant
            i <= expressions@.len(),
            s == expressions@,
            all_parsed_wf(s, i as nat),
        decreases expressions@.len() - i,
    {
        proof {
            assert(decreases_to!(expressions => expressions@[i as int]));
        }
        if !is_well_formed(&expressions[i]) {
            proof {
                if all_parsed_wf(s, s.len()) {
                    lemma_all_parsed_wf(s, s.len());
                }
            }
            return false;
        }
        i += 1;
    }
    true
}

fn fields_well_formed(fields: &Vec<(String, ParsedExpression)>) -> (r: bool)
    ensures
        r == all_fields_wf(fields@, fields@.len()),
    decreases fields, 0nat,
{
    let ghost s = fields@;
    let mut i: usize = 0;
    while i < fields.len()
        invariant
            i <= fields@.len(),
            s == fields@,
            all_fields_wf(s, i as nat),
        decreases fields@.len() - i,
    {
        proof {
            assert(decreases_to!(fields => fields@[i as int].1));
        }
        if !is_well_formed(&fields[i].1) {
            proof {
                if all_fields_wf(s, s.len()) {
                    lemma_all_fields_wf(s, s.len());
                }
            }
            return false;
        }
        i += 1;
    }
    true
}

} // verus!
