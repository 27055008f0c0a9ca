use vstd::prelude::*;
use crate::analysis_spec::{
    all_fields_wf, all_parsed_wf, env_of, field_missing_at, field_names_distinct, fields_complete, has_field, last_missing_field, extra_field_names,
    last_field_index, last_mismatch, expected_field_type, opt_parsed_wf, parsed_wf, spec_analyze,
    spec_analyze_assignable, spec_analyze_block, spec_analyze_call, spec_analyze_declaration,
    spec_analyze_fields, spec_analyze_if, spec_analyze_loop, spec_analyze_opt, spec_analyze_seq,
    spec_analyze_binary, spec_analyze_struct_instance, spec_analyze_tuple, spec_analyze_unary,
    spec_determine_function_call, spec_call_by_name, struct_args, tuple_fields, Env, Locals,
};
use crate::analysis_steps::{
    analyze_generic_args, assignable_member, determine_variable_expression, finish_assign,
    finish_binary, finish_loop, finish_unary, is_bool_type, is_integer_type, is_unit_type,
    pair_view, res_view, resolve_parsed_type, target_view,
};
use crate::analyzed_expression::{
    expr_views, field_views, lemma_expr_views, lemma_field_views, opt_view, AnalyzedConstant,
    AnalyzedExpression, AnalyzedExpressionKind, AnalyzedFunctionCallType, AnalyzedLiteral,
    AssignableExpression, AssignableExpressionKind, ExprView,
};
use crate::analyzed_type::{
    clone_type, clone_types, lemma_views_of, substitute_generic_type, type_lists_equal,
    types_equal, views_of, AnalyzedTypeId, TypeView,
};
use crate::analyzer_context::{AnalyzerContext, LocalVariable};
use crate::analyzer_error::{AnalyzerError, AnalyzerErrorKind, ErrorView, make_error, make_error3};
use crate::analyzed_text::type_string;
use crate::location::Location;
use crate::parsed_expression::{
    BinaryOp, ParsedExpression, ParsedExpressionKind, ParsedLiteral, UnaryOp,
};
use crate::text::{append_u64, nat_text, text};

verus! {
/// Model of a sequence of analysis results.
pub open spec fn all_view(r: Result<Vec<AnalyzedExpression>, AnalyzerError>) -> Result<
    Seq<ExprView>,
    ErrorView,
> {
    match r {
        Ok(v) => Ok(expr_views(v@)),
        Err(e) => Err(e@),
    }
}

/// Model of an optional analysis result.
pub open spec fn opt_res_view(r: Result<Option<Box<AnalyzedExpression>>, AnalyzerError>) -> Result<
    Option<Box<ExprView>>,
    ErrorView,
> {
    match r {
        Ok(o) => Ok(opt_view(o)),
        Err(e) => Err(e@),
    }
}

/// The analyzed values of named fields.
pub open spec fn field_values(s: Seq<(String, AnalyzedExpression)>) -> Seq<ExprView> {
    Seq::new(s.len(), |k: int| s[k].1@)
}

/// Model of the analyzed values of struct fields.
pub open spec fn fields_view(r: Result<Vec<(String, AnalyzedExpression)>, AnalyzerError>) -> Result<
    Seq<ExprView>,
    ErrorView,
> {
    match r {
        Ok(v) => Ok(field_values(v@)),
        Err(e) => Err(e@),
    }
}

/// The names of a list of strings.
pub open spec fn string_views(s: Seq<String>) -> Seq<Seq<char>> {
    Seq::new(s.len(), |k: int| s[k]@)
}

pub(crate) proof fn lemma_all_parsed_wf(s: Seq<ParsedExpression>, n: nat)
    requires
        all_parsed_wf(s, n),
        n <= s.len(),
    ensures
        forall|i: int| 0 <= i < n ==> parsed_wf(#[trigger] s[i]),
    decreases n,
{
    if n > 0 {
        lemma_all_parsed_wf(s, (n - 1) as nat);
    }
}

pub(crate) proof fn lemma_all_fields_wf(s: Seq<(String, ParsedExpression)>, n: nat)
    requires
        all_fields_wf(s, n),
        n <= s.len(),
    ensures
        forall|i: int| 0 <= i < n ==> parsed_wf(#[trigger] s[i].1),
    decreases n,
{
    if n > 0 {
        lemma_all_fields_wf(s, (n - 1) as nat);
    }
}

pub(crate) proof fn lemma_expr_views_push(s: Seq<AnalyzedExpression>, x: AnalyzedExpression)
    ensures
        expr_views(s.push(x)) == expr_views(s).push(x@),
{
    lemma_expr_views(s);
    lemma_expr_views(s.push(x));
    assert(expr_views(s.push(x)) =~= expr_views(s).push(x@));
}

pub(crate) proof fn lemma_seq_error_stays(ctx: Env, l: Locals, s: Seq<ParsedExpression>, n: nat, m: nat, in_loop: bool)
    requires
        n <= m <= s.len(),
        spec_analyze_seq(ctx, l, s, n, in_loop).0 is Err,
    ensures
        spec_analyze_seq(ctx, l, s, m, in_loop) == spec_analyze_seq(ctx, l, s, n, in_loop),
    decreases m - n,
{
    reveal_with_fuel(spec_analyze_seq, 1);
    if n < m {
        lemma_seq_error_stays(ctx, l, s, n, (m - 1) as nat, in_loop);
    }
}

pub(crate) proof fn lemma_fields_error_stays(
    ctx: Env,
    l: Locals,
    fields: Seq<(String, ParsedExpression)>,
    names: Seq<Seq<char>>,
    n: nat,
    m: nat,
    in_loop: bool,
)
    requires
        n <= m <= names.len(),
        spec_analyze_fields(ctx, l, fields, names, n, in_loop).0 is Err,
    ensures
        spec_analyze_fields(ctx, l, fields, names, m, in_loop) == spec_analyze_fields(
            ctx,
            l,
            fields,
            names,
            n,
            in_loop,
        ),
    decreases m - n,
{
    reveal_with_fuel(spec_analyze_fields, 1);
    if n < m {
        lemma_fields_error_stays(ctx, l, fields, names, n, (m - 1) as nat, in_loop);
    }
}

/// A literal: its value with its type; a string becomes a pointer to its bytes, ended by
/// a zero byte.
pub(crate) fn analyze_literal(lit: &ParsedLiteral, location: &Location) -> (r: AnalyzedExpression)
    ensures
        r@ == crate::analysis_spec::spec_literal(*lit, *location),
{
    match lit {
        ParsedLiteral::Unit => AnalyzedExpression {
            kind: AnalyzedExpressionKind::Literal(AnalyzedLiteral::Unit),
            ty: AnalyzedTypeId::Unit,
            location: *location,
        },
        ParsedLiteral::Bool(b) => AnalyzedExpression {
            kind: AnalyzedExpressionKind::Literal(AnalyzedLiteral::Bool(*b)),
            ty: AnalyzedTypeId::Bool,
            location: *location,
        },
        ParsedLiteral::Char(c) => AnalyzedExpression {
            kind: AnalyzedExpressionKind::Literal(AnalyzedLiteral::Char(*c)),
            ty: AnalyzedTypeId::Char,
            location: *location,
        },
        ParsedLiteral::Integer(v) => {
            let ty = if *v >= -2147483648 && *v <= 2147483647 {
                AnalyzedTypeId::Integer(4)
            } else {
                AnalyzedTypeId::Integer(8)
            };
            AnalyzedExpression {
                kind: AnalyzedExpressionKind::Literal(AnalyzedLiteral::Integer(*v)),
                ty,
                location: *location,
            }
        },
        ParsedLiteral::String(s) => {
            let mut bytes = vstd::slice::slice_to_vec(s.as_str().as_bytes());
            bytes.push(0u8);
            let char_type = AnalyzedTypeId::Char;
            assert(char_type@ == TypeView::Char);
            let ty = AnalyzedTypeId::Pointer(Box::new(char_type));
            assert(ty@ == TypeView::Pointer(Box::new(TypeView::Char)));
            AnalyzedExpression {
                kind: AnalyzedExpressionKind::ConstantPointer(AnalyzedConstant::String(bytes)),
                ty,
                location: *location,
            }
        },
    }
}

/// The types of analyzed expressions, in order.
pub(crate) fn types_of(v: &Vec<AnalyzedExpression>) -> (r: Vec<AnalyzedTypeId>)
    ensures
        views_of(r@) == crate::analysis_spec::types_of_views(expr_views(v@)),
{
    proof {
        lemma_expr_views(v@);
    }
    let mut r: Vec<AnalyzedTypeId> = Vec::new();
    let mut i: usize = 0;
    while i < v.len()
        invariant
            i <= v@.len(),
            r@.len() == i,
            forall|j: int| 0 <= j < i ==> #[trigger] r@[j]@ == v@[j]@.ty,
        decreases v@.len() - i,
    {
        r.push(clone_type(&v[i].ty));
        i += 1;
    }
    proof {
        lemma_views_of(r@);
        assert(views_of(r@) =~= crate::analysis_spec::types_of_views(expr_views(v@)));
    }
    r
}

/// Names the elements of a tuple `item0`, `item1`, ... in order.
pub(crate) fn name_tuple_elements(elements: Vec<AnalyzedExpression>) -> (r: Vec<(String, AnalyzedExpression)>)
    ensures
        field_views(r@) == tuple_fields(expr_views(elements@)),
{
    let ghost original = elements@;
    let n = elements.len();
    assert(original.len() == n);
    let mut rest = elements;
    let mut r: Vec<(String, AnalyzedExpression)> = Vec::new();
    let mut i: usize = 0;
    proof {
        reveal_strlit("item");
    }
    while rest.len() > 0
        invariant
            original.len() == i + rest@.len(),
            original.len() <= usize::MAX,
            rest@ == original.subrange(i as int, original.len() as int),
            r@.len() == i,
            forall|j: int|
                0 <= j < i ==> #[trigger] r@[j].0@ == seq!['i', 't', 'e', 'm'] + nat_text(j as nat)
                    && r@[j].1 == original[j],
        decreases rest@.len(),
    {
        let x = rest.remove(0);
        let mut name = text("item");
        proof {
            reveal_strlit("item");
        }
        append_u64(&mut name, i as u64);
        assert(name@ == seq!['i', 't', 'e', 'm'] + nat_text(i as nat));
        assert(x == original[i as int]);
        r.push((name, x));
        i += 1;
    }
    proof {
        lemma_field_views(r@);
        lemma_expr_views(original);
        assert(field_views(r@) =~= tuple_fields(expr_views(original)));
    }
    r
}

/// A call of the function that the callee names: see `spec_call_by_name`.
pub(crate) fn call_by_name(
    context: &AnalyzerContext,
    expr: &ParsedExpression,
    arg_types: Vec<AnalyzedTypeId>,
    location: &Location,
    analyzed_args: Vec<AnalyzedExpression>,
) -> (r: Result<(AnalyzedTypeId, AnalyzedExpressionKind), AnalyzerError>)
    ensures
        pair_view(r) == spec_call_by_name(
            env_of(*context),
            *expr,
            views_of(arg_types@),
            *location,
            expr_views(analyzed_args@),
        ),
{
    match &expr.value {
        ParsedExpressionKind::Variable(id) => {
            let generic_args = match analyze_generic_args(context, &id.generic_args) {
                Ok(a) => a,
                Err(err) => return Err(err),
            };
            let exact = context.functions.map_function_id(
                &id.id,
                clone_types(&arg_types),
                generic_args,
                location,
            );
            let chosen = if id.generic_args.len() == 0 && exact.is_err() {
                context.functions.map_function_id_guess_generics(&id.id, arg_types, location)
            } else {
                exact
            };
            match chosen {
                Err(err) => Err(err),
                Ok(function_ref) => {
                    let header = context.functions.get_header(&function_ref.id);
                    let return_type = substitute_generic_type(
                        &header.return_type,
                        &header.generic_params,
                        &function_ref.generic_args,
                    );
                    Ok(
                        (
                            return_type,
                            AnalyzedExpressionKind::FunctionCall {
                                call_type: AnalyzedFunctionCallType::Function(function_ref),
                                args: analyzed_args,
                            },
                        ),
                    )
                },
            }
        },
        _ => Err(make_error(AnalyzerErrorKind::ExpectedCallable, location)),
    }
}

/// The names of the fields of a struct declaration, in order.
pub(crate) fn field_name_list(decl: &crate::resolved_types::StructDefinition) -> (r: Vec<String>)
    ensures
        string_views(r@) == decl.field_names(),
{
    let mut r: Vec<String> = Vec::new();
    let mut i: usize = 0;
    while i < decl.fields.len()
        invariant
            i <= decl.fields@.len(),
            r@.len() == i,
            forall|j: int| 0 <= j < i ==> #[trigger] r@[j]@ == decl.fields@[j].0@,
        decreases decl.fields@.len() - i,
    {
        r.push(decl.fields[i].0.clone());
        i += 1;
    }
    assert(string_views(r@) =~= decl.field_names());
    r
}

/// Whether a field named `name` is given.
pub(crate) fn has_field_named(fields: &Vec<(String, ParsedExpression)>, name: &String) -> (r: bool)
    ensures
        r == has_field(fields@, name@),
{
    let mut j: usize = 0;
    while j < fields.len()
        invariant
            j <= fields@.len(),
            forall|k: int| 0 <= k < j ==> #[trigger] fields@[k].0@ != name@,
        decreases fields@.len() - j,
    {
        if fields[j].0 == *name {
            assert(fields@[j as int].0@ == name@);
            return true;
        }
        j += 1;
    }
    false
}

/// Every declared field is given, and no field is declared twice.
pub(crate) fn check_fields_complete(names: &Vec<String>, fields: &Vec<(String, ParsedExpression)>) -> (r: bool)
    ensures
        r == fields_complete(string_views(names@), fields@),
{
    let ghost sv = string_views(names@);
    let mut k: usize = 0;
    while k < names.len()
        invariant
            k <= names@.len(),
            sv == string_views(names@),
            forall|m: int| 0 <= m < k ==> has_field(fields@, #[trigger] sv[m]),
            forall|a: int, b: int| 0 <= a < b < k ==> #[trigger] sv[a] != #[trigger] sv[b],
        decreases names@.len() - k,
    {
        if !has_field_named(fields, &names[k]) {
            assert(!has_field(fields@, sv[k as int]));
            return false;
        }
        let mut a: usize = 0;
        while a < k
            invariant
                a <= k < names@.len(),
                sv == string_views(names@),
                forall|m: int| 0 <= m < a ==> #[trigger] sv[m] != sv[k as int],
            decreases k - a,
        {
            if names[a] == names[k] {
                assert(sv[a as int] == sv[k as int]);
                return false;
            }
            a += 1;
        }
        k += 1;
    }
    true
}

/// The last declared field that finds no value, for fields that are not complete.
pub(crate) fn find_missing_field(names: &Vec<String>, fields: &Vec<(String, ParsedExpression)>) -> (r: usize)
    requires
        !fields_complete(string_views(names@), fields@),
    ensures
        r < names@.len(),
        r as int == last_missing_field(string_views(names@), fields@),
{
    let ghost sv = string_views(names@);
    let mut k: usize = names.len();
    while k > 0
        invariant
            k <= names@.len(),
            sv == string_views(names@),
            !fields_complete(sv, fields@),
            forall|m: int| k <= m < names@.len() ==> !#[trigger] field_missing_at(sv, fields@, m),
        decreases k,
    {
        let i = k - 1;
        let mut missing = !has_field_named(fields, &names[i]);
        let mut m: usize = k;
        while m < names.len() && !missing
            invariant
                k <= m <= names@.len(),
                i == k - 1,
                sv == string_views(names@),
                missing ==> field_missing_at(sv, fields@, i as int),
                !missing ==> has_field(fields@, sv[i as int]),
                !missing ==> forall|p: int| k <= p < m ==> #[trigger] sv[p] != sv[i as int],
            decreases names@.len() - m,
        {
            if names[m] == names[i] {
                assert(sv[m as int] == sv[i as int]);
                missing = true;
            }
            m += 1;
        }
        if missing {
            proof {
                let j = i as int;
                assert(0 <= j < sv.len() && field_missing_at(sv, fields@, j) && forall|p: int|
                    j < p < sv.len() ==> !#[trigger] field_missing_at(sv, fields@, p));
                let c = last_missing_field(sv, fields@);
                assert(0 <= c < sv.len() && field_missing_at(sv, fields@, c) && forall|p: int|
                    c < p < sv.len() ==> !#[trigger] field_missing_at(sv, fields@, p));
                if c < j {
                    assert(!field_missing_at(sv, fields@, j));
                }
                if c > j {
                    assert(!field_missing_at(sv, fields@, c));
                }
            }
            return i;
        }
        proof {
            assert(!field_missing_at(sv, fields@, i as int));
        }
        k = i;
    }
    proof {
        assert forall|j: int| 0 <= j < sv.len() implies has_field(fields@, #[trigger] sv[j]) by {
            assert(!field_missing_at(sv, fields@, j));
        }
        assert forall|a: int, b: int| 0 <= a < b < sv.len() implies #[trigger] sv[a] != #[trigger] sv[b] by {
            assert(!field_missing_at(sv, fields@, a));
        }
        assert(fields_complete(sv, fields@));
    }
    0
}

/// Whether `x` is among the strings of `v`.
fn names_contain(v: &Vec<String>, x: &String) -> (r: bool)
    ensures
        r == string_views(v@).contains(x@),
{
    let ghost sv = string_views(v@);
    let mut k: usize = 0;
    while k < v.len()
        invariant
            k <= v@.len(),
            sv == string_views(v@),
            forall|m: int| 0 <= m < k ==> #[trigger] sv[m] != x@,
        decreases v@.len() - k,
    {
        if v[k] == *x {
            assert(sv[k as int] == x@);
            return true;
        }
        k += 1;
    }
    false
}

/// The given field names that are not declared, each once, in the order they are first
/// written.
pub(crate) fn find_extra_fields(names: &Vec<String>, fields: &Vec<(String, ParsedExpression)>) -> (r: Vec<String>)
    ensures
        string_views(r@) == extra_field_names(string_views(names@), fields@, fields@.len()),
{
    let ghost sv = string_views(names@);
    let mut out: Vec<String> = Vec::new();
    let mut j: usize = 0;
    proof {
        assert(string_views(out@) =~= Seq::<Seq<char>>::empty());
    }
    while j < fields.len()
        invariant
            j <= fields@.len(),
            sv == string_views(names@),
            string_views(out@) == extra_field_names(sv, fields@, j as nat),
        decreases fields@.len() - j,
    {
        let x = &fields[j].0;
        if !names_contain(names, x) && !names_contain(&out, x) {
            let ghost before = out@;
            out.push(x.clone());
            proof {
                assert(string_views(out@) =~= string_views(before).push(x@));
            }
        }
        j += 1;
    }
    out
}

/// Whether some given field is not declared.
pub(crate) fn has_extra_field(names: &Vec<String>, fields: &Vec<(String, ParsedExpression)>) -> (r: bool)
    ensures
        r == exists|j: int| 0 <= j < fields@.len() && !string_views(names@).contains(#[trigger] fields@[j].0@),
{
    let ghost sv = string_views(names@);
    let mut j: usize = 0;
    while j < fields.len()
        invariant
            j <= fields@.len(),
            sv == string_views(names@),
            forall|m: int| 0 <= m < j ==> sv.contains(#[trigger] fields@[m].0@),
        decreases fields@.len() - j,
    {
        let mut found = false;
        let mut k: usize = 0;
        while k < names.len()
            invariant
                k <= names@.len(),
                j < fields@.len(),
                sv == string_views(names@),
                found ==> sv.contains(fields@[j as int].0@),
                !found ==> forall|m: int| 0 <= m < k ==> #[trigger] sv[m] != fields@[j as int].0@,
            decreases names@.len() - k,
        {
            if names[k] == fields[j].0 {
                assert(sv[k as int] == fields@[j as int].0@);
                found = true;
            }
            k += 1;
        }
        if !found {
            assert(!sv.contains(fields@[j as int].0@));
            return true;
        }
        j += 1;
    }
    false
}

/// Position of the last given field named `name`.
pub(crate) fn last_field_position(fields: &Vec<(String, ParsedExpression)>, name: &String) -> (r: usize)
    requires
        has_field(fields@, name@),
    ensures
        r < fields@.len(),
        r as int == last_field_index(fields@, name@),
{
    let mut j: usize = fields.len();
    while j > 0
        invariant
            j <= fields@.len(),
            has_field(fields@, name@),
            forall|k: int| j <= k < fields@.len() ==> #[trigger] fields@[k].0@ != name@,
        decreases j,
    {
        if fields[j - 1].0 == *name {
            proof {
                let p = |i: int|
                    0 <= i < fields@.len() && fields@[i].0@ == name@ && forall|k: int|
                        i < k < fields@.len() ==> #[trigger] fields@[k].0@ != name@;
                assert(p((j - 1) as int));
                let c = last_field_index(fields@, name@);
                assert(p(c));
                if c < (j - 1) as int {
                    assert(fields@[(j - 1) as int].0@ != name@);
                }
                if c > (j - 1) as int {
                    assert(fields@[c].0@ != name@);
                }
            }
            return j - 1;
        }
        j -= 1;
    }
    let ghost w = choose|i: int| 0 <= i < fields@.len() && #[trigger] fields@[i].0@ == name@;
    assert(fields@[w].0@ != name@);
    0
}

/// Position of the last field whose value does not have the declared type, if any.
pub(crate) fn find_field_mismatch(
    context: &AnalyzerContext,
    Ghost(d): Ghost<int>,
    decl: &crate::resolved_types::StructDefinition,
    generic_args: &Vec<AnalyzedTypeId>,
    values: &Vec<(String, AnalyzedExpression)>,
) -> (r: Option<usize>)
    requires
        0 <= d < context.types.structs@.len(),
        *decl == context.types.structs@[d],
        values@.len() <= decl.fields@.len(),
    ensures
        match r {
            Some(k) => k < values@.len() && last_mismatch(
                env_of(*context),
                d,
                views_of(generic_args@),
                field_values(values@),
            ) == Some(k as int),
            None => last_mismatch(env_of(*context), d, views_of(generic_args@), field_values(values@)) is None,
        },
{
    let ghost ctx = env_of(*context);
    let ghost args = views_of(generic_args@);
    let ghost vs = field_values(values@);
    let mut k: usize = values.len();
    while k > 0
        invariant
            k <= values@.len() <= decl.fields@.len(),
            0 <= d < context.types.structs@.len(),
            *decl == context.types.structs@[d],
            ctx == env_of(*context),
            args == views_of(generic_args@),
            vs == field_values(values@),
            forall|m: int| k <= m < values@.len() ==> #[trigger] vs[m].ty == expected_field_type(ctx, d, m, args),
        decreases k,
    {
        let expected = substitute_generic_type(&decl.fields[k - 1].1, &decl.generic_params, generic_args);
        if !types_equal(&values[k - 1].1.ty, &expected) {
            proof {
                let i = (k - 1) as int;
                assert(0 <= i < vs.len() && vs[i].ty != expected_field_type(ctx, d, i, args) && forall|m: int|
                    i < m < vs.len() ==> #[trigger] vs[m].ty == expected_field_type(ctx, d, m, args));
                let c = last_mismatch(ctx, d, args, vs).unwrap();
                assert(0 <= c < vs.len() && vs[c].ty != expected_field_type(ctx, d, c, args) && forall|m: int|
                    c < m < vs.len() ==> #[trigger] vs[m].ty == expected_field_type(ctx, d, m, args));
                if c < i {
                    assert(vs[i].ty == expected_field_type(ctx, d, i, args));
                }
                if c > i {
                    assert(vs[c].ty == expected_field_type(ctx, d, c, args));
                }
            }
            return Some(k - 1);
        }
        k -= 1;
    }
    None
}

/// The checks of a struct instance once its field values are analyzed: see
/// `spec_finish_struct`.
#[verifier::rlimit(100)]
pub(crate) fn finish_struct(
    context: &AnalyzerContext,
    resolved: AnalyzedTypeId,
    names: &Vec<String>,
    values: Vec<(String, AnalyzedExpression)>,
    location: &Location,
) -> (r: Result<AnalyzedExpression, AnalyzerError>)
    requires
        context.types.spec_struct_of_type(resolved@) is Some,
        string_views(names@) == context.types.structs@[context.types.spec_struct_of_type(
            resolved@,
        ).unwrap()].field_names(),
        values@.len() == names@.len(),
        forall|k: int| 0 <= k < names@.len() ==> #[trigger] values@[k].0@ == names@[k]@,
    ensures
        res_view(r) == crate::analysis_spec::spec_finish_struct(
            env_of(*context),
            context.types.spec_struct_of_type(resolved@).unwrap(),
            resolved@,
            string_views(names@),
            Ok(field_values(values@)),
            *location,
        ),
{
    let ghost d = context.types.spec_struct_of_type(resolved@).unwrap();
    proof {
        assert(string_views(names@).len() == names@.len());
        assert(context.types.structs@[d].field_names().len() == context.types.structs@[d].fields@.len());
    }
    let mismatch = match context.types.get_struct_from_type(&resolved) {
        Some(decl) => match &resolved {
            AnalyzedTypeId::StructType(struct_ref) => match find_field_mismatch(
                context,
                Ghost(d),
                decl,
                &struct_ref.generic_args,
                &values,
            ) {
                Some(k) => Some(
                    (k, substitute_generic_type(&decl.fields[k].1, &decl.generic_params, &struct_ref.generic_args)),
                ),
                None => None,
            },
            _ => None,
        },
        None => None,
    };
    match mismatch {
        Some((k, expected)) => {
            proof {
                assert(expected@ == crate::analysis_spec::expected_field_type(
                    env_of(*context),
                    d,
                    k as int,
                    crate::analysis_spec::struct_args(resolved@),
                ));
                assert(string_views(names@)[k as int] == names@[k as int]@);
            }
            Err(
                make_error3(
                    AnalyzerErrorKind::StructFieldTypeMismatch,
                    &values[k].1.location,
                    names[k].clone(),
                    type_string(&values[k].1.ty),
                    type_string(&expected),
                ),
            )
        },
        None => {
            proof {
                lemma_field_views(values@);
                assert(field_views(values@) =~= Seq::new(
                    field_values(values@).len(),
                    |k: int| (string_views(names@)[k], field_values(values@)[k]),
                ));
            }
            Ok(
                AnalyzedExpression {
                    kind: AnalyzedExpressionKind::StructInstance { fields: values },
                    ty: resolved,
                    location: *location,
                },
            )
        },
    }
}

/// The return type of a call through the value the callee evaluated to, when that value
/// is not a function name and has a function type whose parameters are exactly the
/// argument types: see `spec_call_through_value`.
pub(crate) fn call_through_value(
    callee: &Result<AnalyzedExpression, AnalyzerError>,
    arg_types: &Vec<AnalyzedTypeId>,
) -> (r: Option<AnalyzedTypeId>)
    ensures
        forall|args: Seq<ExprView>|
            #[trigger] crate::analysis_spec::spec_call_through_value(
                res_view(*callee),
                views_of(arg_types@),
                args,
            ) == match r {
                Some(t) => Some(
                    (
                        t@,
                        crate::analyzed_expression::KindView::FunctionCall {
                            call_type: crate::analyzed_expression::CallTypeView::FunctionPointer(
                                Box::new(callee->Ok_0@),
                            ),
                            args,
                        },
                    ),
                ),
                None => None,
            },
{
    match callee {
        Ok(c) => {
            let is_function = match &c.kind {
                AnalyzedExpressionKind::FunctionPointer(_) => true,
                _ => false,
            };
            proof {
                assert(is_function == (c@.kind is FunctionPointer));
            }
            match &c.ty {
                AnalyzedTypeId::FunctionType(return_type, params) => {
                    if !is_function && type_lists_equal(params, arg_types) {
                        Some(clone_type(return_type))
                    } else {
                        None
                    }
                },
                _ => None,
            }
        },
        Err(_) => None,
    }
}

} // verus!
