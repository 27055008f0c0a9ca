use vstd::prelude::*;
use crate::analyzed_expression::{
    AnalyzedBinaryOp, AnalyzedLiteral, AnalyzedUnaryOp, AssignableKindView, AssignableView,
    BinaryAssignOp, CallTypeView, ExprView, KindView,
};
use crate::analyzed_type::{spec_resolve_generic_type, TypeView};
use crate::analyzer_context::{leave_scope, AnalyzerContext, LocalView};
use crate::analyzed_type::GenericParams;
use crate::resolved_types::ResolvedTypes;
use crate::analyzer_error::{error_at, error_with, error_with_cause, ErrorView, AnalyzerErrorKind};
use crate::location::Location;
use crate::parsed_expression::{
    BinaryComparisonOp, BinaryOp, ParsedExpression, ParsedExpressionKind, ParsedGenericId,
    ParsedLiteral, ParsedType, UnaryOp,
};
use crate::resolved_functions::{FunctionRefView, ResolvedFunctions};
use crate::search::first_index;
use crate::analyzed_text::type_text;
use crate::parsed_text::{generic_id_text, parsed_type_text};
use crate::text::nat_text;

verus! {

/// Local variables by name.
pub type Locals = Map<Seq<char>, LocalView>;

/// Outcome of analyzing an expression: the analyzed expression or the first error, and
/// the local variables afterwards.
pub type Analysis = (Result<ExprView, ErrorView>, Locals);

/// What an analysis reads of its context besides the local variables: the declared
/// types and functions, the generic parameters in scope and the return type of the
/// function being analyzed.
pub struct Env {
    pub types: ResolvedTypes,
    pub functions: ResolvedFunctions,
    pub generic_params: GenericParams,
    pub return_type: TypeView,
}

/// The part of a context that stays fixed while a function body is analyzed.
pub open spec fn env_of(ctx: AnalyzerContext) -> Env {
    Env {
        types: ctx.types,
        functions: ctx.functions,
        generic_params: ctx.generic_params,
        return_type: ctx.return_type@,
    }
}

/// The names of a struct's fields are pairwise different.
pub open spec fn field_names_distinct(names: Seq<Seq<char>>) -> bool {
    forall|a: int, b: int| 0 <= a < b < names.len() ==> #[trigger] names[a] != #[trigger] names[b]
}

/// The parser's guarantee on an expression tree: a loop only has an `else` branch when
/// it has a condition.
pub open spec fn parsed_wf(e: ParsedExpression) -> bool
    decreases e, 0nat,
{
    match e.value {
        ParsedExpressionKind::Block { expressions, .. } => all_parsed_wf(
            expressions@,
            expressions@.len(),
        ),
        ParsedExpressionKind::Return(x) => opt_parsed_wf(x),
        ParsedExpressionKind::Continue => true,
        ParsedExpressionKind::Break(x) => opt_parsed_wf(x),
        ParsedExpressionKind::If { condition, then_block, else_expr } => parsed_wf(*condition)
            && parsed_wf(*then_block) && opt_parsed_wf(else_expr),
        ParsedExpressionKind::Loop { init, condition, step, loop_body, else_expr } => {
            &&& (else_expr is Some ==> condition is Some)
            &&& opt_parsed_wf(init)
            &&& opt_parsed_wf(condition)
            &&& opt_parsed_wf(step)
            &&& parsed_wf(*loop_body)
            &&& opt_parsed_wf(else_expr)
        },
        ParsedExpressionKind::Declaration { value, .. } => parsed_wf(*value),
        ParsedExpressionKind::Variable(_) => true,
        ParsedExpressionKind::StructInstance { fields, .. } => all_fields_wf(
            fields@,
            fields@.len(),
        ),
        ParsedExpressionKind::Literal(_) => true,
        ParsedExpressionKind::Unary { expr, .. } => parsed_wf(*expr),
        ParsedExpressionKind::Binary { left, right, .. } => parsed_wf(*left) && parsed_wf(*right),
        ParsedExpressionKind::FunctionCall { expr, args } => parsed_wf(*expr) && all_parsed_wf(
            args@,
            args@.len(),
        ),
        ParsedExpressionKind::Sizeof(_) => true,
        ParsedExpressionKind::Tuple(elements) => all_parsed_wf(elements@, elements@.len()),
    }
}

pub open spec fn opt_parsed_wf(x: Option<Box<ParsedExpression>>) -> bool
    decreases x, 1nat,
{
    match x {
        Some(b) => parsed_wf(*b),
        None => true,
    }
}

pub open spec fn all_parsed_wf(s: Seq<ParsedExpression>, n: nat) -> bool
    decreases s, n,
{
    if n == 0 || n > s.len() {
        true
    } else {
        all_parsed_wf(s, (n - 1) as nat) && parsed_wf(s[n - 1])
    }
}

pub open spec fn all_fields_wf(s: Seq<(String, ParsedExpression)>, n: nat) -> bool
    decreases s, n,
{
    if n == 0 || n > s.len() {
        true
    } else {
        all_fields_wf(s, (n - 1) as nat) && parsed_wf(s[n - 1].1)
    }
}

pub open spec fn mk(kind: KindView, ty: TypeView, location: Location) -> ExprView {
    ExprView { kind, ty, location }
}

pub open spec fn fail(kind: AnalyzerErrorKind, location: Location, l: Locals) -> Analysis {
    (Err(error_at(kind, location)), l)
}

/// A failed analysis whose error reports the texts `details`.
pub open spec fn fail_with(kind: AnalyzerErrorKind, location: Location, details: Seq<Seq<char>>, l: Locals) -> Analysis {
    (Err(error_with(kind, location, details)), l)
}

/// The type of an integer literal: four bytes when it fits in 32 bits, eight otherwise.
pub open spec fn integer_literal_type(v: i64) -> TypeView {
    if -2147483648 <= v <= 2147483647 {
        TypeView::Integer(4)
    } else {
        TypeView::Integer(8)
    }
}

/// Types that casts convert between: integers, characters, booleans and enums.
pub open spec fn is_scalar(t: TypeView) -> bool {
    t is Integer || t is Char || t is Bool || t is EnumType
}

/// Whether a value of type `from` can be cast to type `to`: the same type, between
/// scalar types, or between pointer types.
pub open spec fn spec_can_cast(from: TypeView, to: TypeView) -> bool {
    from == to || (is_scalar(from) && is_scalar(to)) || (from is Pointer && to is Pointer)
}

/// The types of analyzed expressions, in order.
pub open spec fn types_of_views(vs: Seq<ExprView>) -> Seq<TypeView> {
    Seq::new(vs.len(), |i: int| vs[i].ty)
}

/// The type that a chain of pointers finally points to.
pub open spec fn strip_pointers(t: TypeView) -> TypeView
    decreases t,
{
    match t {
        TypeView::Pointer(inner) => strip_pointers(*inner),
        _ => t,
    }
}

/// Whether comparison `op` accepts operands of type `t`.
pub open spec fn comparable(op: BinaryComparisonOp, t: TypeView) -> bool {
    t is Integer || ((op == BinaryComparisonOp::Equals || op == BinaryComparisonOp::NotEquals) && (
    t is Char || t is Bool || t is EnumType))
}

/// The type that a written type denotes in the analyzed function.
pub open spec fn resolve_type(ctx: Env, t: ParsedType) -> Option<TypeView> {
    ctx.types.spec_map_type(ctx.generic_params, t.value)
}

/// The generic arguments written at a name, or the error for the first one that denotes
/// no type.
pub open spec fn spec_analyze_generic_args(ctx: Env, args: Seq<ParsedType>) -> Result<
    Seq<TypeView>,
    ErrorView,
> {
    match first_index(args, |a: ParsedType| resolve_type(ctx, a) is None) {
        Some(i) => Err(error_with(AnalyzerErrorKind::GenericArgumentNotFound, args[i].location, seq![parsed_type_text(args[i].value)])),
        None => Ok(Seq::new(args.len(), |i: int| resolve_type(ctx, args[i]).unwrap())),
    }
}

/// The type of a call to the function that `f` refers to.
pub open spec fn call_return_type(functions: ResolvedFunctions, f: FunctionRefView) -> TypeView {
    let h = functions.spec_header(f.id);
    spec_resolve_generic_type(h.return_type@, h.generic_params.ids(), f.generic_args)
}

/// What a name with generic arguments `generic_args` denotes as a function: matched by
/// parameter types against an expected function type, or else by its number of generic
/// arguments. `None` when nothing matches and no generic arguments were written.
pub open spec fn spec_variable_function(
    ctx: Env,
    id: ParsedGenericId,
    location: Location,
    hint: Option<TypeView>,
    generic_args: Seq<TypeView>,
) -> Option<Result<(TypeView, KindView), ErrorView>> {
    let explicit = id.generic_args@.len() > 0;
    match hint {
        Some(TypeView::FunctionType(ret, params)) => match ctx.functions.spec_map_function_id(
            id.id,
            params,
            generic_args,
            location,
        ) {
            Ok(f) => Some(Ok((TypeView::FunctionType(ret, f.arg_types), KindView::FunctionPointer(f)))),
            Err(err) => if explicit {
                Some(Err(err))
            } else {
                None
            },
        },
        _ => match ctx.functions.spec_function_id_from_scope_id(id.id, generic_args, location) {
            Ok(f) => Some(
                Ok(
                    (
                        TypeView::FunctionType(Box::new(call_return_type(ctx.functions, f)), f.arg_types),
                        KindView::FunctionPointer(f),
                    ),
                ),
            ),
            Err(err) => if explicit {
                Some(Err(err))
            } else {
                None
            },
        },
    }
}

/// What a qualified name denotes as an enum variant of an enum declared in the file the
/// name was read from; a name that carries no file denotes no enum variant.
pub open spec fn spec_variable_enum(ctx: Env, id: ParsedGenericId, location: Location) -> Result<
    (TypeView, KindView),
    ErrorView,
> {
    match location.file {
        None => Err(error_at(AnalyzerErrorKind::ExpectedModuleLocal, location)),
        Some(file) => match ctx.types.spec_enum_of_variant(id.id.item_id, file.id) {
            Some(i) => {
                let d = ctx.types.enums@[i];
                match d.spec_variant_value(id.id.item_id.item_name@) {
                    Some(v) => Ok((TypeView::EnumType(d.id), KindView::Literal(AnalyzedLiteral::Integer(v)))),
                    None => Err(error_with(AnalyzerErrorKind::EnumVariantNotFound, location, seq![id.id.item_id.item_name@])),
                }
            },
            None => Err(error_at(AnalyzerErrorKind::ExpectedModuleLocal, location)),
        },
    }
}

/// What a name used as a value denotes: a local variable of the current module; else a
/// function (matched against the expected function type when one is expected); else,
/// for a qualified name, an enum variant.
pub open spec fn spec_determine_variable(
    ctx: Env,
    l: Locals,
    id: ParsedGenericId,
    location: Location,
    hint: Option<TypeView>,
) -> Result<(TypeView, KindView), ErrorView> {
    let name = id.id.item_id.item_name@;
    let explicit = id.generic_args@.len() > 0;
    if id.id.is_module_local && !explicit && l.contains_key(name) {
        let ty = l[name].ty;
        Ok(
            (
                ty,
                KindView::ValueOfAssignable(
                    AssignableView { kind: AssignableKindView::LocalVariable(name), ty },
                ),
            ),
        )
    } else {
        match spec_analyze_generic_args(ctx, id.generic_args@) {
            Err(err) => Err(err),
            Ok(generic_args) => match spec_variable_function(ctx, id, location, hint, generic_args) {
                Some(r) => r,
                None => if explicit {
                    Err(error_with(AnalyzerErrorKind::FunctionNotFound, location, seq![generic_id_text(id)]))
                } else if !id.id.is_module_local {
                    spec_variable_enum(ctx, id, location)
                } else {
                    Err(error_with(AnalyzerErrorKind::VariableOrFunctionNotFound, location, seq![generic_id_text(id)]))
                },
            },
        }
    }
}

/// The position of the last parsed field named `name`.
pub open spec fn last_field_index(fields: Seq<(String, ParsedExpression)>, name: Seq<char>) -> int {
    choose|j: int|
        0 <= j < fields.len() && fields[j].0@ == name && forall|k: int|
            j < k < fields.len() ==> #[trigger] fields[k].0@ != name
}

/// Every declared field is given a value, and no field is declared twice.
pub open spec fn fields_complete(names: Seq<Seq<char>>, fields: Seq<(String, ParsedExpression)>) -> bool {
    &&& forall|k: int| 0 <= k < names.len() ==> has_field(fields, #[trigger] names[k])
    &&& field_names_distinct(names)
}

/// Whether a field named `name` is given.
pub open spec fn has_field(fields: Seq<(String, ParsedExpression)>, name: Seq<char>) -> bool {
    exists|j: int| 0 <= j < fields.len() && #[trigger] fields[j].0@ == name
}

/// Whether declared field `k` finds no value when the declared fields are matched from
/// the last one back, each using up the given value of its name: its name is not given,
/// or a later declared field of the same name used it up.
pub open spec fn field_missing_at(names: Seq<Seq<char>>, fields: Seq<(String, ParsedExpression)>, k: int) -> bool {
    !has_field(fields, names[k]) || exists|m: int| k < m < names.len() && #[trigger] names[m] == names[k]
}

/// The last declared field that finds no value.
pub open spec fn last_missing_field(names: Seq<Seq<char>>, fields: Seq<(String, ParsedExpression)>) -> int {
    choose|k: int|
        0 <= k < names.len() && field_missing_at(names, fields, k) && forall|m: int|
            k < m < names.len() ==> !#[trigger] field_missing_at(names, fields, m)
}

/// The given field names that are not declared among `names`, each once, in the order
/// they are first written among the first `n` given fields.
pub open spec fn extra_field_names(names: Seq<Seq<char>>, fields: Seq<(String, ParsedExpression)>, n: nat) -> Seq<
    Seq<char>,
>
    decreases n,
{
    if n == 0 || n > fields.len() {
        Seq::empty()
    } else {
        let before = extra_field_names(names, fields, (n - 1) as nat);
        let x = fields[n - 1].0@;
        if names.contains(x) || before.contains(x) {
            before
        } else {
            before.push(x)
        }
    }
}

/// The type that field `k` of struct declaration `d` has in an instance with the given
/// generic arguments.
pub open spec fn expected_field_type(
    ctx: Env,
    d: int,
    k: int,
    generic_args: Seq<TypeView>,
) -> TypeView {
    let decl = ctx.types.structs@[d];
    spec_resolve_generic_type(decl.fields@[k].1@, decl.generic_params.ids(), generic_args)
}

/// The generic arguments of a struct type.
pub open spec fn struct_args(t: TypeView) -> Seq<TypeView> {
    match t {
        TypeView::StructType(_, args) => args,
        _ => Seq::empty(),
    }
}

/// Position of the last field whose value does not have the declared type.
pub open spec fn last_mismatch(
    ctx: Env,
    d: int,
    generic_args: Seq<TypeView>,
    values: Seq<ExprView>,
) -> Option<int> {
    if exists|k: int|
        0 <= k < values.len() && #[trigger] values[k].ty != expected_field_type(
            ctx,
            d,
            k,
            generic_args,
        ) {
        Some(
            choose|k: int|
                0 <= k < values.len() && values[k].ty != expected_field_type(ctx, d, k, generic_args)
                    && forall|m: int|
                    k < m < values.len() ==> #[trigger] values[m].ty == expected_field_type(
                        ctx,
                        d,
                        m,
                        generic_args,
                    ),
        )
    } else {
        None
    }
}

/// Analysis of the value of each of the first `n` fields of a struct declaration, in
/// declaration order, stopping at the first error.
#[verifier::opaque]
pub open spec fn spec_analyze_fields(
    ctx: Env,
    l: Locals,
    fields: Seq<(String, ParsedExpression)>,
    names: Seq<Seq<char>>,
    n: nat,
    in_loop: bool,
) -> (Result<Seq<ExprView>, ErrorView>, Locals)
    decreases fields, n,
{
    if n == 0 || n > names.len() {
        (Ok(Seq::empty()), l)
    } else {
        let (r, l1) = spec_analyze_fields(ctx, l, fields, names, (n - 1) as nat, in_loop);
        match r {
            Err(err) => (Err(err), l1),
            Ok(vs) => {
                let j = last_field_index(fields, names[n - 1]);
                if 0 <= j < fields.len() {
                    let (r2, l2) = spec_analyze(ctx, l1, fields[j].1, in_loop, None);
                    match r2 {
                        Err(err) => (Err(err), l2),
                        Ok(v) => (Ok(vs.push(v)), l2),
                    }
                } else {
                    (Ok(vs), l1)
                }
            },
        }
    }
}

/// Analysis of the first `n` expressions of a sequence, in order, stopping at the first
/// error.
#[verifier::opaque]
pub open spec fn spec_analyze_seq(
    ctx: Env,
    l: Locals,
    s: Seq<ParsedExpression>,
    n: nat,
    in_loop: bool,
) -> (Result<Seq<ExprView>, ErrorView>, Locals)
    decreases s, n,
{
    if n == 0 || n > s.len() {
        (Ok(Seq::empty()), l)
    } else {
        let (r, l1) = spec_analyze_seq(ctx, l, s, (n - 1) as nat, in_loop);
        match r {
            Err(err) => (Err(err), l1),
            Ok(vs) => {
                let (r2, l2) = spec_analyze(ctx, l1, s[n - 1], in_loop, None);
                match r2 {
                    Err(err) => (Err(err), l2),
                    Ok(v) => (Ok(vs.push(v)), l2),
                }
            },
        }
    }
}

/// Analysis of an optional subexpression.
#[verifier::opaque]
pub open spec fn spec_analyze_opt(
    ctx: Env,
    l: Locals,
    x: Option<Box<ParsedExpression>>,
    in_loop: bool,
) -> (Result<Option<Box<ExprView>>, ErrorView>, Locals)
    decreases x, 4nat,
{
    match x {
        Some(b) => {
            let (r, l1) = spec_analyze(ctx, l, *b, in_loop, None);
            match r {
                Err(err) => (Err(err), l1),
                Ok(v) => (Ok(Some(Box::new(v))), l1),
            }
        },
        None => (Ok(None), l),
    }
}

/// The type of an optional analyzed expression, unit when absent.
pub open spec fn opt_type(x: Option<Box<ExprView>>) -> TypeView {
    match x {
        Some(b) => b.ty,
        None => TypeView::Unit,
    }
}

/// The field `member` of the struct that the place `a` holds or points to, as a place.
pub open spec fn spec_assignable_member(
    ctx: Env,
    member: Seq<char>,
    expr_location: Location,
    a: AssignableView,
) -> Result<AssignableView, ErrorView> {
    let inner = strip_pointers(a.ty);
    match ctx.types.spec_struct_of_type(inner) {
        None => Err(error_at(AnalyzerErrorKind::MemberOfNonStruct, expr_location)),
        Some(d) => match ctx.types.structs@[d].spec_field_type(member, struct_args(inner)) {
            None => Err(error_at(AnalyzerErrorKind::MemberNotFound, expr_location)),
            Some(ft) => if a.ty is Pointer {
                Ok(
                    AssignableView {
                        kind: AssignableKindView::PointerFieldAccess(
                            Box::new(mk(KindView::ValueOfAssignable(a), a.ty, expr_location)),
                            member,
                            1,
                        ),
                        ty: ft,
                    },
                )
            } else {
                Ok(
                    AssignableView {
                        kind: AssignableKindView::FieldAccess(Box::new(a), member),
                        ty: ft,
                    },
                )
            },
        },
    }
}

/// The place an expression denotes, for borrowing and assignment.
#[verifier::opaque]
pub open spec fn spec_analyze_assignable(
    ctx: Env,
    l: Locals,
    e: ParsedExpression,
) -> (Result<AssignableView, ErrorView>, Locals)
    decreases e, 1nat,
{
    let loc = e.location;
    match e.value {
        ParsedExpressionKind::Variable(id) => {
            let name = id.id.item_id.item_name@;
            if id.id.is_module_local && id.generic_args@.len() == 0 && l.contains_key(name) {
                (
                    Ok(
                        AssignableView {
                            kind: AssignableKindView::LocalVariable(name),
                            ty: l[name].ty,
                        },
                    ),
                    l,
                )
            } else {
                (Err(error_at(AnalyzerErrorKind::NotAssignable, loc)), l)
            }
        },
        ParsedExpressionKind::Unary { op: UnaryOp::Dereference, expr } => {
            let (r, l1) = spec_analyze(ctx, l, *expr, false, None);
            match r {
                Err(err) => (Err(err), l1),
                Ok(v) => match v.ty {
                    TypeView::Pointer(inner) => (
                        Ok(
                            AssignableView {
                                kind: AssignableKindView::Dereference(Box::new(v)),
                                ty: *inner,
                            },
                        ),
                        l1,
                    ),
                    _ => (Err(error_at(AnalyzerErrorKind::DereferenceNotPointer, loc)), l1),
                },
            }
        },
        ParsedExpressionKind::Unary { op: UnaryOp::Member(member), expr } => {
            let (r, l1) = spec_analyze_assignable(ctx, l, *expr);
            match r {
                Err(err) => (Err(err), l1),
                Ok(a) => (spec_assignable_member(ctx, member@, expr.location, a), l1),
            }
        },
        ParsedExpressionKind::Binary { op: BinaryOp::Index, left, right } => {
            let (r1, l1) = spec_analyze(ctx, l, *left, false, None);
            match r1 {
                Err(err) => (Err(err), l1),
                Ok(a) => {
                    let (r2, l2) = spec_analyze(ctx, l1, *right, false, None);
                    match r2 {
                        Err(err) => (Err(err), l2),
                        Ok(i) => if !(i.ty is Integer) {
                            (Err(error_at(AnalyzerErrorKind::IndexNotInteger, right.location)), l2)
                        } else {
                            match a.ty {
                                TypeView::Pointer(inner) => (
                                    Ok(
                                        AssignableView {
                                            kind: AssignableKindView::ArrayIndex(
                                                Box::new(a),
                                                Box::new(i),
                                            ),
                                            ty: *inner,
                                        },
                                    ),
                                    l2,
                                ),
                                _ => (
                                    Err(error_at(AnalyzerErrorKind::IndexNotPointer, left.location)),
                                    l2,
                                ),
                            }
                        },
                    }
                },
            }
        },
        _ => (Err(error_at(AnalyzerErrorKind::NotAssignable, loc)), l),
    }
}

/// A call through the value the callee evaluates to: when that value is not a function
/// name and has a function type whose parameters are exactly the argument types.
pub open spec fn spec_call_through_value(
    r: Result<ExprView, ErrorView>,
    arg_types: Seq<TypeView>,
    args: Seq<ExprView>,
) -> Option<(TypeView, KindView)> {
    match r {
        Ok(c) => if c.kind is FunctionPointer {
            None
        } else {
            match c.ty {
                TypeView::FunctionType(ret, params) => if params == arg_types {
                    Some(
                        (
                            *ret,
                            KindView::FunctionCall {
                                call_type: CallTypeView::FunctionPointer(Box::new(c)),
                                args,
                            },
                        ),
                    )
                } else {
                    None
                },
                _ => None,
            }
        },
        Err(_) => None,
    }
}

/// A call of a function named by the callee: by its explicit generic arguments, or, when
/// none are written and the exact match fails, by inferring them from the argument types.
pub open spec fn spec_call_by_name(
    ctx: Env,
    callee: ParsedExpression,
    arg_types: Seq<TypeView>,
    location: Location,
    args: Seq<ExprView>,
) -> Result<(TypeView, KindView), ErrorView> {
    match callee.value {
        ParsedExpressionKind::Variable(id) => match spec_analyze_generic_args(ctx, id.generic_args@) {
            Err(err) => Err(err),
            Ok(generic_args) => {
                let exact = ctx.functions.spec_map_function_id(id.id, arg_types, generic_args, location);
                let chosen = if id.generic_args@.len() == 0 && exact is Err {
                    ctx.functions.spec_map_function_id_guess_generics(id.id, arg_types, location)
                } else {
                    exact
                };
                match chosen {
                    Err(err) => Err(err),
                    Ok(f) => Ok(
                        (
                            call_return_type(ctx.functions, f),
                            KindView::FunctionCall { call_type: CallTypeView::Function(f), args },
                        ),
                    ),
                }
            },
        },
        _ => Err(error_at(AnalyzerErrorKind::ExpectedCallable, location)),
    }
}

/// Analysis of a call once its arguments are analyzed: a callee that evaluates to a
/// value of function type accepting exactly the argument types is called through that
/// value; otherwise a named callee is resolved to a function, by explicit generic
/// arguments or, when none are written and the exact match fails, by inferring them.
#[verifier::opaque]
pub open spec fn spec_determine_function_call(
    ctx: Env,
    l: Locals,
    callee: ParsedExpression,
    arg_types: Seq<TypeView>,
    location: Location,
    args: Seq<ExprView>,
) -> (Result<(TypeView, KindView), ErrorView>, Locals)
    decreases callee, 3nat,
{
    let (r, l1) = spec_analyze(ctx, l, callee, false, None);
    match spec_call_through_value(r, arg_types, args) {
        Some(found) => (Ok(found), l1),
        None => (spec_call_by_name(ctx, callee, arg_types, location, args), l1),
    }
}

/// The names of the tuple fields, `item0`, `item1`, ...
pub open spec fn tuple_fields(elements: Seq<ExprView>) -> Seq<(Seq<char>, ExprView)> {
    Seq::new(
        elements.len(),
        |i: int| (seq!['i', 't', 'e', 'm'] + nat_text(i as nat), elements[i]),
    )
}

/// The type required of the `break`s of a loop: the `else` type for a loop with a
/// condition and an `else`, unit for a loop with a condition only, no requirement for an
/// endless loop.
pub open spec fn required_break_type(condition: bool, else_ty: Option<TypeView>) -> Option<TypeView> {
    if condition {
        match else_ty {
            Some(t) => Some(t),
            None => Some(TypeView::Unit),
        }
    } else {
        None
    }
}

/// The type that the `break`s in `e` give the enclosing loop, checked against
/// `break_type`, the type established so far. `break`s inside nested loop bodies belong to
/// those loops and are not looked at.
pub open spec fn spec_break_type(break_type: Option<TypeView>, e: ExprView) -> Result<
    Option<TypeView>,
    ErrorView,
>
    decreases e, 1nat,
{
    match e.kind {
        KindView::Block { expressions, .. } => spec_break_type_seq(
            break_type,
            expressions,
            expressions.len(),
        ),
        KindView::Return(x) => match x {
            Some(b) => spec_break_type(break_type, *b),
            None => Ok(break_type),
        },
        KindView::Continue => Ok(break_type),
        KindView::Break(x) => {
            let t = opt_type(x);
            if break_type is Some && break_type.unwrap() != t {
                Err(error_with(AnalyzerErrorKind::BreakTypeMismatch, e.location, seq![type_text(t), type_text(break_type.unwrap())]))
            } else {
                Ok(Some(t))
            }
        },
        KindView::If { condition, then_block, else_expr } => match spec_break_type(
            break_type,
            *condition,
        ) {
            Err(err) => Err(err),
            Ok(b1) => match spec_break_type(b1, *then_block) {
                Err(err) => Err(err),
                Ok(b2) => match else_expr {
                    Some(x) => spec_break_type(b2, *x),
                    None => Ok(b2),
                },
            },
        },
        KindView::Loop { init, else_expr, .. } => {
            let r1 = match init {
                Some(x) => spec_break_type(break_type, *x),
                None => Ok(break_type),
            };
            match r1 {
                Err(err) => Err(err),
                Ok(b1) => match else_expr {
                    Some(x) => spec_break_type(b1, *x),
                    None => Ok(b1),
                },
            }
        },
        KindView::Declaration { value, .. } => spec_break_type(break_type, *value),
        KindView::ValueOfAssignable(a) => spec_break_type_assignable(break_type, a),
        KindView::StructInstance { fields } => spec_break_type_fields(
            break_type,
            fields,
            fields.len(),
        ),
        KindView::Literal(_) => Ok(break_type),
        KindView::ConstantPointer(_) => Ok(break_type),
        KindView::Unary { expr, .. } => spec_break_type(break_type, *expr),
        KindView::Binary { left, right, .. } => match spec_break_type(break_type, *left) {
            Err(err) => Err(err),
            Ok(b1) => spec_break_type(b1, *right),
        },
        KindView::Assign { lhs, rhs, .. } => match spec_break_type_assignable(break_type, lhs) {
            Err(err) => Err(err),
            Ok(b1) => spec_break_type(b1, *rhs),
        },
        KindView::Borrow { expr } => spec_break_type_assignable(break_type, expr),
        KindView::FunctionCall { call_type, args } => {
            let r1 = match call_type {
                CallTypeView::Function(_) => Ok(break_type),
                CallTypeView::FunctionPointer(inner) => spec_break_type(break_type, *inner),
            };
            match r1 {
                Err(err) => Err(err),
                Ok(b1) => spec_break_type_seq(b1, args, args.len()),
            }
        },
        KindView::FieldAccess { expr, .. } => spec_break_type(break_type, *expr),
        KindView::Increment(a, _) => spec_break_type_assignable(break_type, a),
        KindView::Decrement(a, _) => spec_break_type_assignable(break_type, a),
        KindView::Sizeof(_) => Ok(break_type),
        KindView::FunctionPointer(_) => Ok(break_type),
    }
}

pub open spec fn spec_break_type_assignable(break_type: Option<TypeView>, a: AssignableView) -> Result<
    Option<TypeView>,
    ErrorView,
>
    decreases a, 1nat,
{
    match a.kind {
        AssignableKindView::LocalVariable(_) => Ok(break_type),
        AssignableKindView::Dereference(e) => spec_break_type(break_type, *e),
        AssignableKindView::FieldAccess(inner, _) => spec_break_type_assignable(break_type, *inner),
        AssignableKindView::PointerFieldAccess(e, _, _) => spec_break_type(break_type, *e),
        AssignableKindView::ArrayIndex(arr, index) => match spec_break_type(break_type, *arr) {
            Err(err) => Err(err),
            Ok(b1) => spec_break_type(b1, *index),
        },
    }
}

pub open spec fn spec_break_type_seq(break_type: Option<TypeView>, s: Seq<ExprView>, n: nat) -> Result<
    Option<TypeView>,
    ErrorView,
>
    decreases s, n,
{
    if n == 0 || n > s.len() {
        Ok(break_type)
    } else {
        match spec_break_type_seq(break_type, s, (n - 1) as nat) {
            Err(err) => Err(err),
            Ok(b1) => spec_break_type(b1, s[n - 1]),
        }
    }
}

pub open spec fn spec_break_type_fields(
    break_type: Option<TypeView>,
    s: Seq<(Seq<char>, ExprView)>,
    n: nat,
) -> Result<Option<TypeView>, ErrorView>
    decreases s, n,
{
    if n == 0 || n > s.len() {
        Ok(break_type)
    } else {
        match spec_break_type_fields(break_type, s, (n - 1) as nat) {
            Err(err) => Err(err),
            Ok(b1) => spec_break_type(b1, s[n - 1].1),
        }
    }
}

/// The checks of a struct instance once its field values are analyzed: each value has
/// its field's declared type, else the error names the last one that does not.
pub open spec fn spec_finish_struct(
    ctx: Env,
    d: int,
    ty: TypeView,
    names: Seq<Seq<char>>,
    r: Result<Seq<ExprView>, ErrorView>,
    loc: Location,
) -> Result<ExprView, ErrorView> {
    match r {
        Err(err) => Err(err),
        Ok(vs) => match last_mismatch(ctx, d, struct_args(ty), vs) {
            Some(k) => Err(
            error_with(
                AnalyzerErrorKind::StructFieldTypeMismatch,
                vs[k].location,
                seq![names[k], type_text(vs[k].ty), type_text(expected_field_type(ctx, d, k, struct_args(ty)))],
            ),
        ),
            None => Ok(
                mk(
                    KindView::StructInstance { fields: Seq::new(vs.len(), |k: int| (names[k], vs[k])) },
                    ty,
                    loc,
                ),
            ),
        },
    }
}

/// The literal's value with its type; a string becomes a pointer to its bytes, ended by a
/// zero byte.
pub open spec fn spec_literal(lit: ParsedLiteral, loc: Location) -> ExprView {
    match lit {
        ParsedLiteral::Unit => mk(KindView::Literal(AnalyzedLiteral::Unit), TypeView::Unit, loc),
        ParsedLiteral::Bool(b) => mk(KindView::Literal(AnalyzedLiteral::Bool(b)), TypeView::Bool, loc),
        ParsedLiteral::Char(c) => mk(KindView::Literal(AnalyzedLiteral::Char(c)), TypeView::Char, loc),
        ParsedLiteral::Integer(v) => mk(
            KindView::Literal(AnalyzedLiteral::Integer(v)),
            integer_literal_type(v),
            loc,
        ),
        ParsedLiteral::String(s) => mk(
            KindView::ConstantPointer(vstd::utf8::encode_utf8(s@).push(0u8)),
            TypeView::Pointer(Box::new(TypeView::Char)),
            loc,
        ),
    }
}

/// Expression analysis: type checking of `e` and its translation into an analyzed
/// expression, in the scope of local variables `l`. `in_loop` tells whether `e` is in
/// the body of a loop (where `break` and `continue` are allowed); `hint` is the type a
/// declaration expects of `e`, used to pick among functions of the same name.
#[verifier::rlimit(40)]
#[verifier::opaque]
pub open spec fn spec_analyze(
    ctx: Env,
    l: Locals,
    e: ParsedExpression,
    in_loop: bool,
    hint: Option<TypeView>,
) -> Analysis
    decreases e, 2nat,
{
    let loc = e.location;
    match e.value {
        ParsedExpressionKind::Block { .. } => spec_analyze_block(ctx, l, e, in_loop),
        ParsedExpressionKind::Return(x) => {
            let (r, l1) = spec_analyze_opt(ctx, l, x, in_loop);
            match r {
                Err(err) => (Err(err), l1),
                Ok(v) => if opt_type(v) != ctx.return_type {
                    fail_with(AnalyzerErrorKind::ReturnTypeMismatch, loc, seq![type_text(opt_type(v)), type_text(ctx.return_type)], l1)
                } else {
                    (Ok(mk(KindView::Return(v), TypeView::Unit, loc)), l1)
                },
            }
        },
        ParsedExpressionKind::Continue => if !in_loop {
            fail(AnalyzerErrorKind::ContinueOutsideLoop, loc, l)
        } else {
            (Ok(mk(KindView::Continue, TypeView::Unit, loc)), l)
        },
        ParsedExpressionKind::Break(x) => {
            let (r, l1) = spec_analyze_opt(ctx, l, x, in_loop);
            match r {
                Err(err) => (Err(err), l1),
                Ok(v) => if !in_loop {
                    fail(AnalyzerErrorKind::BreakOutsideLoop, loc, l1)
                } else {
                    (Ok(mk(KindView::Break(v), TypeView::Unit, loc)), l1)
                },
            }
        },
        ParsedExpressionKind::If { .. } => spec_analyze_if(ctx, l, e, in_loop),
        ParsedExpressionKind::Loop { .. } => spec_analyze_loop(ctx, l, e, in_loop),
        ParsedExpressionKind::Declaration { .. } => spec_analyze_declaration(ctx, l, e, in_loop),
        ParsedExpressionKind::Variable(id) => match spec_determine_variable(ctx, l, id, loc, hint) {
            Err(err) => (Err(err), l),
            Ok((ty, kind)) => (Ok(mk(kind, ty, loc)), l),
        },
        ParsedExpressionKind::StructInstance { .. } => spec_analyze_struct_instance(ctx, l, e, in_loop),
        ParsedExpressionKind::Literal(lit) => (Ok(spec_literal(lit, loc)), l),
        ParsedExpressionKind::Unary { .. } => spec_analyze_unary(ctx, l, e, in_loop),
        ParsedExpressionKind::Binary { .. } => spec_analyze_binary(ctx, l, e, in_loop),
        ParsedExpressionKind::FunctionCall { .. } => spec_analyze_call(ctx, l, e, in_loop),
        ParsedExpressionKind::Sizeof(t) => match resolve_type(ctx, t) {
            None => fail_with(AnalyzerErrorKind::SizeofTypeNotFound, t.location, seq![parsed_type_text(t.value)], l),
            Some(ty) => (Ok(mk(KindView::Sizeof(ty), TypeView::Integer(4), loc)), l),
        },
        ParsedExpressionKind::Tuple(_) => spec_analyze_tuple(ctx, l, e, in_loop),
    }
}


/// A block: its expressions in order, in a scope of their own; the variables it declares are gone after it.
#[verifier::opaque]
pub open spec fn spec_analyze_block(ctx: Env, l: Locals, e: ParsedExpression, in_loop: bool) -> Analysis
    decreases e, 1nat,
{
    let loc = e.location;
    match e.value {
        ParsedExpressionKind::Block { expressions, returns_value } => {
            let (r, l2) = spec_analyze_seq(
                ctx,
                leave_scope(l),
                expressions@,
                expressions@.len(),
                in_loop,
            );
            match r {
                Err(err) => (Err(err), l2),
                Ok(vs) => (
                    Ok(
                        mk(
                            KindView::Block { expressions: vs, returns_value },
                            if returns_value && vs.len() > 0 {
                                vs[vs.len() - 1].ty
                            } else {
                                TypeView::Unit
                            },
                            loc,
                        ),
                    ),
                    l,
                ),
            }
        },
        _ => fail(AnalyzerErrorKind::NotAssignable, loc, l),
    }
}

/// A conditional: condition, then branch, else branch, then the checks on their types.
#[verifier::opaque]
pub open spec fn spec_analyze_if(ctx: Env, l: Locals, e: ParsedExpression, in_loop: bool) -> Analysis
    decreases e, 1nat,
{
    let loc = e.location;
    match e.value {
        ParsedExpressionKind::If { condition, then_block, else_expr } => {
            let (r1, l1) = spec_analyze(ctx, l, *condition, in_loop, None);
            match r1 {
                Err(err) => (Err(err), l1),
                Ok(c) => {
                    let (r2, l2) = spec_analyze(ctx, l1, *then_block, in_loop, None);
                    match r2 {
                        Err(err) => (Err(err), l2),
                        Ok(t) => {
                            let (r3, l3) = spec_analyze_opt(ctx, l2, else_expr, in_loop);
                            match r3 {
                                Err(err) => (Err(err), l3),
                                Ok(el) => if c.ty != TypeView::Bool {
                                    fail(AnalyzerErrorKind::IfConditionNotBool, loc, l3)
                                } else if el is Some && t.ty != el.unwrap().ty {
                                    fail_with(AnalyzerErrorKind::IfBranchTypeMismatch, loc, seq![type_text(t.ty), type_text(el.unwrap().ty)], l3)
                                } else if el is None && t.ty != TypeView::Unit {
                                    fail_with(AnalyzerErrorKind::IfWithoutElseNotUnit, loc, seq![type_text(t.ty)], l3)
                                } else {
                                    (
                                        Ok(
                                            mk(
                                                KindView::If {
                                                    condition: Box::new(c),
                                                    then_block: Box::new(t),
                                                    else_expr: el,
                                                },
                                                if el is Some {
                                                    t.ty
                                                } else {
                                                    TypeView::Unit
                                                },
                                                loc,
                                            ),
                                        ),
                                        l3,
                                    )
                                },
                            }
                        },
                    }
                },
            }
        },
        _ => fail(AnalyzerErrorKind::NotAssignable, loc, l),
    }
}

/// A loop: init, condition, step, body and else part, then the checks on their types and on the `break`s of the body.
#[verifier::opaque]
pub open spec fn spec_analyze_loop(ctx: Env, l: Locals, e: ParsedExpression, in_loop: bool) -> Analysis
    decreases e, 1nat,
{
    let loc = e.location;
    match e.value {
        ParsedExpressionKind::Loop { init, condition, step, loop_body, else_expr } => {
            let (r1, l1) = spec_analyze_opt(ctx, l, init, in_loop);
            match r1 {
                Err(err) => (Err(err), l1),
                Ok(i) => {
                    let (r2, l2) = spec_analyze_opt(ctx, l1, condition, false);
                    match r2 {
                        Err(err) => (Err(err), l2),
                        Ok(c) => {
                            let (r3, l3) = spec_analyze_opt(ctx, l2, step, false);
                            match r3 {
                                Err(err) => (Err(err), l3),
                                Ok(s) => {
                                    let (r4, l4) = spec_analyze(ctx, l3, *loop_body, true, None);
                                    match r4 {
                                        Err(err) => (Err(err), l4),
                                        Ok(b) => {
                                            let (r5, l5) = spec_analyze_opt(
                                                ctx,
                                                l4,
                                                else_expr,
                                                in_loop,
                                            );
                                            match r5 {
                                                Err(err) => (Err(err), l5),
                                                Ok(el) => spec_finish_loop(loc, i, c, s, b, el, l5),
                                            }
                                        },
                                    }
                                },
                            }
                        },
                    }
                },
            }
        },
        _ => fail(AnalyzerErrorKind::NotAssignable, loc, l),
    }
}

/// A declaration: the declared type, the value, then the new variable.
#[verifier::opaque]
pub open spec fn spec_analyze_declaration(ctx: Env, l: Locals, e: ParsedExpression, in_loop: bool) -> Analysis
    decreases e, 1nat,
{
    let loc = e.location;
    match e.value {
        ParsedExpressionKind::Declaration { var_type, var_name, value } => {
            let declared = match var_type {
                Some(t) => Some(resolve_type(ctx, t)),
                None => None,
            };
            if declared is Some && declared.unwrap() is None {
                fail_with(
                    AnalyzerErrorKind::DeclarationTypeNotFound,
                    var_type.unwrap().location,
                    seq![parsed_type_text(var_type.unwrap().value)],
                    l,
                )
            } else {
                let hint2 = match declared {
                    Some(t) => t,
                    None => None,
                };
                let (r, l1) = spec_analyze(ctx, l, *value, in_loop, hint2);
                match r {
                    Err(err) => (Err(err), l1),
                    Ok(v) => if hint2 is Some && v.ty != hint2.unwrap() {
                        fail_with(
                            AnalyzerErrorKind::DeclarationTypeMismatch,
                            value.location,
                            seq![type_text(hint2.unwrap()), type_text(v.ty)],
                            l1,
                        )
                    } else {
                        let l2 = l1.insert(
                            var_name@,
                            LocalView { ty: v.ty, is_current_scope: true },
                        );
                        if l1.contains_key(var_name@) && l1[var_name@].is_current_scope {
                            fail_with(AnalyzerErrorKind::VariableAlreadyDeclared, loc, seq![var_name@], l2)
                        } else {
                            (
                                Ok(
                                    mk(
                                        KindView::Declaration {
                                            var_name: var_name@,
                                            value: Box::new(v),
                                        },
                                        TypeView::Unit,
                                        loc,
                                    ),
                                ),
                                l2,
                            )
                        }
                    },
                }
            }
        },
        _ => fail(AnalyzerErrorKind::NotAssignable, loc, l),
    }
}

/// A struct instance: the struct type and the given field names, the field values in declaration order, then their types.
#[verifier::opaque]
pub open spec fn spec_analyze_struct_instance(ctx: Env, l: Locals, e: ParsedExpression, in_loop: bool) -> Analysis
    decreases e, 1nat,
{
    let loc = e.location;
    match e.value {
        ParsedExpressionKind::StructInstance { struct_type, fields } => {
            match resolve_type(ctx, struct_type) {
                None => fail_with(AnalyzerErrorKind::TypeNotFound, struct_type.location, seq![parsed_type_text(struct_type.value)], l),
                Some(ty) => match ctx.types.spec_struct_of_type(ty) {
                    None => fail_with(AnalyzerErrorKind::NotAStructType, struct_type.location, seq![type_text(ty)], l),
                    Some(d) => {
                        let names = ctx.types.structs@[d].field_names();
                        if !fields_complete(names, fields@) {
                            fail_with(
                                AnalyzerErrorKind::StructFieldMissing,
                                loc,
                                seq![names[last_missing_field(names, fields@)]],
                                l,
                            )
                        } else if exists|j: int|
                            0 <= j < fields@.len() && !names.contains(#[trigger] fields@[j].0@) {
                            fail_with(
                                AnalyzerErrorKind::StructHasExtraFields,
                                loc,
                                extra_field_names(names, fields@, fields@.len()),
                                l,
                            )
                        } else {
                            let (r, l1) = spec_analyze_fields(
                                ctx,
                                l,
                                fields@,
                                names,
                                names.len(),
                                in_loop,
                            );
                            (spec_finish_struct(ctx, d, ty, names, r, loc), l1)
                        }
                    },
                },
            }
        },
        _ => fail(AnalyzerErrorKind::NotAssignable, loc, l),
    }
}

/// A unary expression.
#[verifier::opaque]
pub open spec fn spec_analyze_unary(ctx: Env, l: Locals, e: ParsedExpression, in_loop: bool) -> Analysis
    decreases e, 1nat,
{
    let loc = e.location;
    match e.value {
        ParsedExpressionKind::Unary { op, expr } => match op {
            UnaryOp::Borrow => {
                let (r, l1) = spec_analyze_assignable(ctx, l, *expr);
                match r {
                    Err(err) => (Err(error_with_cause(AnalyzerErrorKind::InvalidBorrow, loc, err)), l1),
                    Ok(a) => (
                        Ok(mk(KindView::Borrow { expr: a }, TypeView::Pointer(Box::new(a.ty)), loc)),
                        l1,
                    ),
                }
            },
            UnaryOp::Increment { is_prefix } => {
                let (r, l1) = spec_analyze_assignable(ctx, l, *expr);
                match r {
                    Err(err) => (
                        Err(error_with_cause(AnalyzerErrorKind::InvalidIncrement, loc, err)),
                        l1,
                    ),
                    Ok(a) => if !(a.ty is Integer) {
                        fail_with(AnalyzerErrorKind::IncrementNotInteger, loc, seq![type_text(a.ty)], l1)
                    } else {
                        (Ok(mk(KindView::Increment(a, is_prefix), a.ty, loc)), l1)
                    },
                }
            },
            UnaryOp::Decrement { is_prefix } => {
                let (r, l1) = spec_analyze_assignable(ctx, l, *expr);
                match r {
                    Err(err) => (
                        Err(error_with_cause(AnalyzerErrorKind::InvalidDecrement, loc, err)),
                        l1,
                    ),
                    Ok(a) => if !(a.ty is Integer) {
                        fail_with(AnalyzerErrorKind::DecrementNotInteger, loc, seq![type_text(a.ty)], l1)
                    } else {
                        (Ok(mk(KindView::Decrement(a, is_prefix), a.ty, loc)), l1)
                    },
                }
            },
            _ => {
                let (r, l1) = spec_analyze(ctx, l, *expr, in_loop, None);
                match r {
                    Err(err) => (Err(err), l1),
                    Ok(v) => spec_finish_unary(ctx, op, expr.location, loc, v, l1),
                }
            },
        },
        _ => fail(AnalyzerErrorKind::NotAssignable, loc, l),
    }
}

/// A binary expression: the right side first when the left side is assigned to.
#[verifier::opaque]
pub open spec fn spec_analyze_binary(ctx: Env, l: Locals, e: ParsedExpression, in_loop: bool) -> Analysis
    decreases e, 1nat,
{
    match e.value {
        ParsedExpressionKind::Binary { op, .. } => if op == BinaryOp::Assign || op is MathAssign
            || op is LogicAssign {
            spec_analyze_assignment(ctx, l, e, in_loop)
        } else {
            spec_analyze_operation(ctx, l, e, in_loop)
        },
        _ => fail(AnalyzerErrorKind::NotAssignable, e.location, l),
    }
}

/// An assignment: the right side, then the target, then the checks on their types.
#[verifier::opaque]
pub open spec fn spec_analyze_assignment(ctx: Env, l: Locals, e: ParsedExpression, in_loop: bool) -> Analysis
    decreases e, 0nat,
{
    let loc = e.location;
    match e.value {
        ParsedExpressionKind::Binary { op, left, right } => {
            let (r1, l1) = spec_analyze(ctx, l, *right, in_loop, None);
            match r1 {
                Err(err) => (Err(err), l1),
                Ok(rv) => {
                    let (r2, l2) = spec_analyze_assignable(ctx, l1, *left);
                    spec_finish_assign(op, left.location, right.location, loc, r2, rv, l2)
                },
            }
        },
        _ => fail(AnalyzerErrorKind::NotAssignable, loc, l),
    }
}

/// A binary operation on two values: the left side, then the right side, then the checks
/// on their types.
#[verifier::opaque]
pub open spec fn spec_analyze_operation(ctx: Env, l: Locals, e: ParsedExpression, in_loop: bool) -> Analysis
    decreases e, 0nat,
{
    let loc = e.location;
    match e.value {
        ParsedExpressionKind::Binary { op, left, right } => {
            let (r1, l1) = spec_analyze(ctx, l, *left, in_loop, None);
            match r1 {
                Err(err) => (Err(err), l1),
                Ok(lv) => {
                    let (r2, l2) = spec_analyze(ctx, l1, *right, in_loop, None);
                    match r2 {
                        Err(err) => (Err(err), l2),
                        Ok(rv) => spec_finish_binary(op, left.location, right.location, loc, lv, rv, l2),
                    }
                },
            }
        },
        _ => fail(AnalyzerErrorKind::NotAssignable, loc, l),
    }
}

/// A call: the arguments in order, then the callee.
#[verifier::opaque]
pub open spec fn spec_analyze_call(ctx: Env, l: Locals, e: ParsedExpression, in_loop: bool) -> Analysis
    decreases e, 1nat,
{
    let loc = e.location;
    match e.value {
        ParsedExpressionKind::FunctionCall { expr, args } => {
            let (r, l1) = spec_analyze_seq(ctx, l, args@, args@.len(), in_loop);
            match r {
                Err(err) => (Err(err), l1),
                Ok(vs) => {
                    let arg_types = types_of_views(vs);
                    let (r2, l2) = spec_determine_function_call(ctx, l1, *expr, arg_types, loc, vs);
                    match r2 {
                        Err(err) => (Err(err), l2),
                        Ok((ty, kind)) => (Ok(mk(kind, ty, loc)), l2),
                    }
                },
            }
        },
        _ => fail(AnalyzerErrorKind::NotAssignable, loc, l),
    }
}

/// A tuple: its elements in order, as an instance of the tuple struct.
#[verifier::opaque]
pub open spec fn spec_analyze_tuple(ctx: Env, l: Locals, e: ParsedExpression, in_loop: bool) -> Analysis
    decreases e, 1nat,
{
    let loc = e.location;
    match e.value {
        ParsedExpressionKind::Tuple(elements) => {
            let (r, l1) = spec_analyze_seq(ctx, l, elements@, elements@.len(), in_loop);
            match r {
                Err(err) => (Err(err), l1),
                Ok(vs) => (
                    Ok(
                        mk(
                            KindView::StructInstance { fields: tuple_fields(vs) },
                            TypeView::StructType(
                                ctx.types.tuple_struct,
                                types_of_views(vs),
                            ),
                            loc,
                        ),
                    ),
                    l1,
                ),
            }
        },
        _ => fail(AnalyzerErrorKind::NotAssignable, loc, l),
    }
}

/// The checks of a loop once its parts are analyzed.
pub open spec fn spec_finish_loop(
    loc: Location,
    init: Option<Box<ExprView>>,
    condition: Option<Box<ExprView>>,
    step: Option<Box<ExprView>>,
    body: ExprView,
    else_expr: Option<Box<ExprView>>,
    l: Locals,
) -> Analysis {
    if init is Some && init.unwrap().ty != TypeView::Unit {
        fail_with(AnalyzerErrorKind::LoopInitNotUnit, loc, seq![type_text(init.unwrap().ty)], l)
    } else if condition is Some && condition.unwrap().ty != TypeView::Bool {
        fail_with(AnalyzerErrorKind::LoopConditionNotBool, loc, seq![type_text(condition.unwrap().ty)], l)
    } else if !(opt_type(step) is Unit || opt_type(step) is Integer) {
        fail_with(AnalyzerErrorKind::LoopStepNotUnitOrInteger, loc, seq![type_text(opt_type(step))], l)
    } else if body.ty != TypeView::Unit {
        fail_with(AnalyzerErrorKind::LoopBodyNotUnit, loc, seq![type_text(body.ty)], l)
    } else {
        let required = required_break_type(
            condition is Some,
            match else_expr {
                Some(x) => Some(x.ty),
                None => None,
            },
        );
        match spec_break_type(required, body) {
            Err(err) => (Err(err), l),
            Ok(t) => (
                Ok(
                    mk(
                        KindView::Loop {
                            init,
                            condition,
                            step,
                            loop_body: Box::new(body),
                            else_expr,
                        },
                        match t {
                            Some(x) => x,
                            None => TypeView::Unit,
                        },
                        loc,
                    ),
                ),
                l,
            ),
        }
    }
}

/// The checks of a unary expression whose operand is a value, once it is analyzed.
pub open spec fn spec_finish_unary(
    ctx: Env,
    op: UnaryOp,
    expr_loc: Location,
    loc: Location,
    v: ExprView,
    l: Locals,
) -> Analysis {
    match op {
        UnaryOp::Math(m) => if !(v.ty is Integer) {
            fail_with(AnalyzerErrorKind::MathUnaryNotInteger, loc, seq![type_text(v.ty)], l)
        } else {
            (
                Ok(
                    mk(
                        KindView::Unary { op: AnalyzedUnaryOp::Math(m), expr: Box::new(v) },
                        v.ty,
                        loc,
                    ),
                ),
                l,
            )
        },
        UnaryOp::LogicalNot => if v.ty != TypeView::Bool {
            fail_with(AnalyzerErrorKind::LogicalNotNotBool, loc, seq![type_text(v.ty)], l)
        } else {
            (
                Ok(
                    mk(
                        KindView::Unary { op: AnalyzedUnaryOp::LogicalNot, expr: Box::new(v) },
                        TypeView::Bool,
                        loc,
                    ),
                ),
                l,
            )
        },
        UnaryOp::Dereference => match v.ty {
            TypeView::Pointer(inner) => (
                Ok(
                    mk(
                        KindView::ValueOfAssignable(
                            AssignableView {
                                kind: AssignableKindView::Dereference(Box::new(v)),
                                ty: *inner,
                            },
                        ),
                        *inner,
                        loc,
                    ),
                ),
                l,
            ),
            _ => fail_with(AnalyzerErrorKind::DereferenceNotPointer, loc, seq![type_text(v.ty)], l),
        },
        UnaryOp::Cast(target) => match resolve_type(ctx, target) {
            None => fail_with(AnalyzerErrorKind::CastTypeNotFound, target.location, seq![parsed_type_text(target.value)], l),
            Some(t) => if spec_can_cast(v.ty, t) {
                (
                    Ok(
                        mk(
                            KindView::Unary { op: AnalyzedUnaryOp::Cast, expr: Box::new(v) },
                            t,
                            loc,
                        ),
                    ),
                    l,
                )
            } else {
                fail_with(AnalyzerErrorKind::InvalidCast, loc, seq![type_text(v.ty), type_text(t)], l)
            },
        },
        UnaryOp::Member(member) => {
            let inner = strip_pointers(v.ty);
            match ctx.types.spec_struct_of_type(inner) {
                None => fail_with(AnalyzerErrorKind::MemberOfNonStruct, expr_loc, seq![type_text(inner)], l),
                Some(d) => match ctx.types.structs@[d].spec_field_type(member@, struct_args(inner)) {
                    None => fail_with(AnalyzerErrorKind::MemberNotFound, expr_loc, seq![type_text(v.ty), member@], l),
                    Some(ft) => if v.ty is Pointer {
                        (
                            Ok(
                                mk(
                                    KindView::ValueOfAssignable(
                                        AssignableView {
                                            kind: AssignableKindView::PointerFieldAccess(
                                                Box::new(v),
                                                member@,
                                                1,
                                            ),
                                            ty: ft,
                                        },
                                    ),
                                    ft,
                                    loc,
                                ),
                            ),
                            l,
                        )
                    } else {
                        (
                            Ok(
                                mk(
                                    KindView::FieldAccess { expr: Box::new(v), field_name: member@ },
                                    ft,
                                    loc,
                                ),
                            ),
                            l,
                        )
                    },
                },
            }
        },
        _ => fail(AnalyzerErrorKind::NotAssignable, loc, l),
    }
}

/// The checks of a binary expression on two values, once both are analyzed.
pub open spec fn spec_finish_binary(
    op: BinaryOp,
    left_loc: Location,
    right_loc: Location,
    loc: Location,
    lv: ExprView,
    rv: ExprView,
    l: Locals,
) -> Analysis {
    match op {
        BinaryOp::Index => if !(rv.ty is Integer) {
            fail_with(AnalyzerErrorKind::IndexNotInteger, right_loc, seq![type_text(rv.ty)], l)
        } else {
            match lv.ty {
                TypeView::Pointer(inner) => (
                    Ok(
                        mk(
                            KindView::ValueOfAssignable(
                                AssignableView {
                                    kind: AssignableKindView::ArrayIndex(
                                        Box::new(lv),
                                        Box::new(rv),
                                    ),
                                    ty: *inner,
                                },
                            ),
                            *inner,
                            loc,
                        ),
                    ),
                    l,
                ),
                _ => fail_with(AnalyzerErrorKind::IndexNotPointer, left_loc, seq![type_text(lv.ty)], l),
            }
        },
        BinaryOp::Math(m) => if !(lv.ty is Integer) {
            fail_with(AnalyzerErrorKind::MathLeftNotInteger, left_loc, seq![type_text(lv.ty)], l)
        } else if lv.ty != rv.ty {
            fail_with(AnalyzerErrorKind::MathOperandMismatch, right_loc, seq![type_text(lv.ty), type_text(rv.ty)], l)
        } else {
            (
                Ok(
                    mk(
                        KindView::Binary {
                            op: AnalyzedBinaryOp::Math(m),
                            left: Box::new(lv),
                            right: Box::new(rv),
                        },
                        lv.ty,
                        loc,
                    ),
                ),
                l,
            )
        },
        BinaryOp::Logical(lo) => if lv.ty != TypeView::Bool {
            fail_with(AnalyzerErrorKind::LogicLeftNotBool, left_loc, seq![type_text(lv.ty)], l)
        } else if rv.ty != TypeView::Bool {
            fail_with(AnalyzerErrorKind::LogicRightNotBool, right_loc, seq![type_text(rv.ty)], l)
        } else {
            (
                Ok(
                    mk(
                        KindView::Binary {
                            op: AnalyzedBinaryOp::Logical(lo),
                            left: Box::new(lv),
                            right: Box::new(rv),
                        },
                        TypeView::Bool,
                        loc,
                    ),
                ),
                l,
            )
        },
        BinaryOp::Comparison(c) => if !comparable(c, lv.ty) {
            fail_with(AnalyzerErrorKind::ComparisonNotComparable, left_loc, seq![type_text(lv.ty)], l)
        } else if lv.ty != rv.ty {
            fail_with(AnalyzerErrorKind::ComparisonOperandMismatch, right_loc, seq![type_text(lv.ty), type_text(rv.ty)], l)
        } else {
            (
                Ok(
                    mk(
                        KindView::Binary {
                            op: AnalyzedBinaryOp::Comparison(c),
                            left: Box::new(lv),
                            right: Box::new(rv),
                        },
                        TypeView::Bool,
                        loc,
                    ),
                ),
                l,
            )
        },
        _ => fail(AnalyzerErrorKind::NotAssignable, loc, l),
    }
}

/// The checks of an assignment once its right side and target are analyzed.
pub open spec fn spec_finish_assign(
    op: BinaryOp,
    left_loc: Location,
    right_loc: Location,
    loc: Location,
    target: Result<AssignableView, ErrorView>,
    rv: ExprView,
    l: Locals,
) -> Analysis {
    match op {
        BinaryOp::Assign => match target {
            Err(err) => (Err(error_with_cause(AnalyzerErrorKind::InvalidAssign, loc, err)), l),
            Ok(a) => if a.ty != rv.ty {
                fail_with(AnalyzerErrorKind::AssignTypeMismatch, right_loc, seq![type_text(a.ty), type_text(rv.ty)], l)
            } else {
                (
                    Ok(
                        mk(
                            KindView::Assign { op: BinaryAssignOp::Assign, lhs: a, rhs: Box::new(rv) },
                            a.ty,
                            loc,
                        ),
                    ),
                    l,
                )
            },
        },
        BinaryOp::MathAssign(m) => match target {
            Err(err) => (Err(error_with_cause(AnalyzerErrorKind::InvalidMathAssign, loc, err)), l),
            Ok(a) => if !(a.ty is Integer) {
                fail_with(AnalyzerErrorKind::MathAssignNotInteger, left_loc, seq![type_text(a.ty)], l)
            } else if a.ty != rv.ty {
                fail_with(AnalyzerErrorKind::MathAssignTypeMismatch, right_loc, seq![type_text(a.ty), type_text(rv.ty)], l)
            } else {
                (
                    Ok(
                        mk(
                            KindView::Assign {
                                op: BinaryAssignOp::MathAssign(m),
                                lhs: a,
                                rhs: Box::new(rv),
                            },
                            a.ty,
                            loc,
                        ),
                    ),
                    l,
                )
            },
        },
        BinaryOp::LogicAssign(lo) => match target {
            Err(err) => (Err(error_with_cause(AnalyzerErrorKind::InvalidLogicAssign, loc, err)), l),
            Ok(a) => if a.ty != TypeView::Bool {
                fail_with(AnalyzerErrorKind::LogicAssignLeftNotBool, left_loc, seq![type_text(a.ty)], l)
            } else if rv.ty != TypeView::Bool {
                fail_with(AnalyzerErrorKind::LogicAssignRightNotBool, right_loc, seq![type_text(rv.ty)], l)
            } else {
                (
                    Ok(
                        mk(
                            KindView::Assign {
                                op: BinaryAssignOp::LogicAssign(lo),
                                lhs: a,
                                rhs: Box::new(rv),
                            },
                            TypeView::Bool,
                            loc,
                        ),
                    ),
                    l,
                )
            },
        },
        _ => fail(AnalyzerErrorKind::NotAssignable, loc, l),
    }
}

} // verus!
