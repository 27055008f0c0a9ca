use vstd::prelude::*;
use crate::analyzed_print_spec::larger;
use crate::parsed_expression::{Located, ParsedExpression, ParsedExpressionKind};
use crate::parsed_program::{ParsedFunction, ParsedModule, ParsedTraitImplementation};
use crate::tree_print_spec::{
    function_depth, functions_depth, module_depth, trait_impls_depth, tree_all_depth, tree_depth,
    tree_fields_depth, tree_inner_depth, tree_opt_depth,
};

verus! {

/// Whether printing a parsed expression stays within `limit` indentation levels below the
/// level it starts at.
pub fn tree_fits(expr: &ParsedExpression, limit: usize) -> (r: bool)
    ensures
        r == (tree_depth(*expr) <= limit),
    decreases expr, 1nat,
{
    match &expr.value {
        ParsedExpressionKind::Sizeof(_) => true,
        ParsedExpressionKind::Variable(_) => true,
        ParsedExpressionKind::Continue => true,
        ParsedExpressionKind::Literal(_) => true,
        ParsedExpressionKind::Break(x) => nested_fits(x, limit),
        ParsedExpressionKind::Return(x) => nested_fits(x, limit),
        ParsedExpressionKind::StructInstance { fields, .. } => limit > 0 && tree_fields_fit(fields, limit - 1),
        ParsedExpressionKind::Unary { expr: e, .. } => limit > 0 && tree_fits(e, limit - 1),
        ParsedExpressionKind::Binary { left, right, .. } => {
            limit > 0 && tree_fits(left, limit - 1) && tree_fits(right, limit - 1)
        },
        ParsedExpressionKind::Block { expressions, .. } => limit > 0 && tree_all_fit(expressions, limit - 1),
        ParsedExpressionKind::Loop { init, condition, step, loop_body, else_expr } => {
            limit > 0 && inner_fits(init, limit - 1) && inner_fits(condition, limit - 1)
                && inner_fits(step, limit - 1) && tree_fits(loop_body, limit - 1) && inner_fits(
                else_expr,
                limit - 1,
            )
        },
        ParsedExpressionKind::Declaration { value, .. } => limit > 0 && tree_fits(value, limit - 1),
        ParsedExpressionKind::If { condition, then_block, else_expr } => {
            limit > 0 && tree_fits(condition, limit - 1) && tree_fits(then_block, limit - 1)
                && inner_fits(else_expr, limit - 1)
        },
        ParsedExpressionKind::FunctionCall { expr: e, args } => {
            limit > 0 && tree_fits(e, limit - 1) && tree_all_fit(args, limit - 1)
        },
        ParsedExpressionKind::Tuple(elements) => limit > 0 && tree_all_fit(elements, limit - 1),
    }
}

fn nested_fits(x: &Option<Box<ParsedExpression>>, limit: usize) -> (r: bool)
    ensures
        r == (tree_opt_depth(*x) <= limit),
    decreases x, 2nat,
{
    match x {
        Some(e) => limit > 0 && tree_fits(e, limit - 1),
        None => true,
    }
}

fn inner_fits(x: &Option<Box<ParsedExpression>>, limit: usize) -> (r: bool)
    ensures
        r == (tree_inner_depth(*x) <= limit),
    decreases x, 2nat,
{
    match x {
        Some(e) => tree_fits(e, limit),
        None => true,
    }
}

proof fn lemma_prefix_all_depth(s: Seq<ParsedExpression>, n: int)
    requires
        0 <= n <= s.len(),
    ensures
        tree_all_depth(s.take(n)) <= tree_all_depth(s),
    decreases s.len(),
{
    if n < s.len() {
        lemma_prefix_all_depth(s.drop_last(), n);
        assert(s.drop_last().take(n) =~= s.take(n));
    } else {
        assert(s.take(n) =~= s);
    }
}

proof fn lemma_prefix_fields_depth(s: Seq<(String, ParsedExpression)>, n: int)
    requires
        0 <= n <= s.len(),
    ensures
        tree_fields_depth(s.take(n)) <= tree_fields_depth(s),
    decreases s.len(),
{
    if n < s.len() {
        lemma_prefix_fields_depth(s.drop_last(), n);
        assert(s.drop_last().take(n) =~= s.take(n));
    } else {
        assert(s.take(n) =~= s);
    }
}

fn tree_all_fit(expressions: &Vec<ParsedExpression>, limit: usize) -> (r: bool)
    ensures
        r == (tree_all_depth(expressions@) <= limit),
    decreases expressions, 0nat,
{
    let ghost s = expressions@;
    proof {
        assert(s.take(0) =~= Seq::<ParsedExpression>::empty());
    }
    let mut i: usize = 0;
    while i < expressions.len()
        invariant
            i <= expressions@.len(),
            s == expressions@,
            tree_all_depth(s.take(i as int)) <= limit,
        decreases expressions@.len() - i,
    {
        proof {
            assert(decreases_to!(expressions => expressions@[i as int]));
            let t = s.take((i + 1) as int);
            assert(t.drop_last() =~= s.take(i as int));
        }
        if !tree_fits(&expressions[i], limit) {
            proof {
                lemma_prefix_all_depth(s, (i + 1) as int);
            }
            return false;
        }
        i += 1;
    }
    proof {
        assert(s.take(expressions@.len() as int) =~= s);
    }
    true
}

fn tree_fields_fit(fields: &Vec<(String, ParsedExpression)>, limit: usize) -> (r: bool)
    ensures
        r == (tree_fields_depth(fields@) <= limit),
    decreases fields, 0nat,
{
    let ghost s = fields@;
    proof {
        assert(s.take(0) =~= Seq::<(String, ParsedExpression)>::empty());
    }
    let mut i: usize = 0;
    while i < fields.len()
        invariant
            i <= fields@.len(),
            s == fields@,
            tree_fields_depth(s.take(i as int)) <= limit,
        decreases fields@.len() - i,
    {
        proof {
            assert(decreases_to!(fields => fields@[i as int].1));
            let t = s.take((i + 1) as int);
            assert(t.drop_last() =~= s.take(i as int));
        }
        if !tree_fits(&fields[i].1, limit) {
            proof {
                lemma_prefix_fields_depth(s, (i + 1) as int);
            }
            return false;
        }
        i += 1;
    }
    proof {
        assert(s.take(fields@.len() as int) =~= s);
    }
    true
}

proof fn lemma_prefix_functions_depth(s: Seq<Located<ParsedFunction>>, n: int)
    requires
        0 <= n <= s.len(),
    ensures
        functions_depth(s.take(n)) <= functions_depth(s),
    decreases s.len(),
{
    if n < s.len() {
        lemma_prefix_functions_depth(s.drop_last(), n);
        assert(s.drop_last().take(n) =~= s.take(n));
    } else {
        assert(s.take(n) =~= s);
    }
}

/// Whether printing functions stays within `limit` levels.
fn functions_fit(functions: &Vec<Located<ParsedFunction>>, limit: usize) -> (r: bool)
    ensures
        r == (functions_depth(functions@) <= limit),
{
    let ghost s = functions@;
    proof {
        assert(s.take(0) =~= Seq::<Located<ParsedFunction>>::empty());
    }
    let mut i: usize = 0;
    while i < functions.len()
        invariant
            i <= functions@.len(),
            s == functions@,
            functions_depth(s.take(i as int)) <= limit,
        decreases functions@.len() - i,
    {
        proof {
            let t = s.take((i + 1) as int);
            assert(t.drop_last() =~= s.take(i as int));
        }
        if !(limit >= 1 && tree_fits(&functions[i].value.body, limit)) {
            proof {
                lemma_prefix_functions_depth(s, (i + 1) as int);
            }
            return false;
        }
        i += 1;
    }
    proof {
        assert(s.take(functions@.len() as int) =~= s);
    }
    true
}

proof fn lemma_prefix_impls_depth(s: Seq<Located<ParsedTraitImplementation>>, n: int)
    requires
        0 <= n <= s.len(),
    ensures
        trait_impls_depth(s.take(n)) <= trait_impls_depth(s),
    decreases s.len(),
{
    if n < s.len() {
        lemma_prefix_impls_depth(s.drop_last(), n);
        assert(s.drop_last().take(n) =~= s.take(n));
    } else {
        assert(s.take(n) =~= s);
    }
}

fn impls_fit(impls: &Vec<Located<ParsedTraitImplementation>>, limit: usize) -> (r: bool)
    ensures
        r == (trait_impls_depth(impls@) <= limit),
{
    let ghost s = impls@;
    proof {
        assert(s.take(0) =~= Seq::<Located<ParsedTraitImplementation>>::empty());
    }
    let mut i: usize = 0;
    while i < impls.len()
        invariant
            i <= impls@.len(),
            s == impls@,
            trait_impls_depth(s.take(i as int)) <= limit,
        decreases impls@.len() - i,
    {
        proof {
            let t = s.take((i + 1) as int);
            assert(t.drop_last() =~= s.take(i as int));
        }
        if !(limit >= 1 && functions_fit(&impls[i].value.functions, limit - 1)) {
            proof {
                lemma_prefix_impls_depth(s, (i + 1) as int);
            }
            return false;
        }
        i += 1;
    }
    proof {
        assert(s.take(impls@.len() as int) =~= s);
    }
    true
}

/// Whether printing a module stays within `limit` indentation levels below the level it
/// starts at.
pub fn module_fits(module: &ParsedModule, limit: usize) -> (r: bool)
    ensures
        r == (module_depth(*module) <= limit),
{
    limit >= 2 && functions_fit(&module.functions, limit) && impls_fit(
        &module.trait_implementations,
        limit,
    )
}

} // verus!
