use vstd::prelude::*;
use crate::analysis_spec::{
    comparable, env_of, is_scalar, resolve_type, spec_analyze_generic_args, spec_can_cast,
    spec_assignable_member, spec_determine_variable, spec_variable_enum, spec_variable_function, spec_finish_assign, spec_finish_binary, spec_finish_loop,
    spec_finish_unary, strip_pointers, struct_args, Locals, opt_type, required_break_type,
};
use crate::analyzed_expression::{
    opt_view, AnalyzedBinaryOp, AnalyzedExpression, AnalyzedExpressionKind, AnalyzedLiteral,
    AnalyzedUnaryOp, AssignableExpression, AssignableExpressionKind, BinaryAssignOp, ExprView,
    KindView, kind_view,
};
use crate::analyzed_type::{
    clone_type, clone_types, substitute_generic_type, types_equal, views_of, AnalyzedTypeId,
    TypeView,
};
use crate::analyzer_context::AnalyzerContext;
use crate::analyzer_error::{AnalyzerError, AnalyzerErrorKind, ErrorView, make_error, make_error1, make_error2, wrap_error};
use crate::analyzed_text::type_string;
use crate::parsed_text::{generic_id_string, parsed_type_string};
use crate::break_check::{assert_break_return_type, opt_ref_view, opt_type_view};
use crate::location::Location;
use crate::parsed_expression::{BinaryOp, ParsedGenericId, ParsedType, UnaryOp};
use crate::search::{first_index, lemma_first_index_found, lemma_first_index_none};

verus! {

/// Model of an analysis result.
pub open spec fn res_view(r: Result<AnalyzedExpression, AnalyzerError>) -> Result<ExprView, ErrorView> {
    match r {
        Ok(x) => Ok(x@),
        Err(e) => Err(e@),
    }
}

/// Model of a type and expression kind computed together.
pub open spec fn pair_view(r: Result<(AnalyzedTypeId, AnalyzedExpressionKind), AnalyzerError>) -> Result<
    (TypeView, KindView),
    ErrorView,
> {
    match r {
        Ok((t, k)) => Ok((t@, kind_view(k))),
        Err(e) => Err(e@),
    }
}

/// Model of an analyzed assignment target.
pub open spec fn target_view(r: Result<AssignableExpression, AnalyzerError>) -> Result<
    crate::analyzed_expression::AssignableView,
    ErrorView,
> {
    match r {
        Ok(a) => Ok(a@),
        Err(e) => Err(e@),
    }
}

pub open spec fn types_view(r: Result<Vec<AnalyzedTypeId>, AnalyzerError>) -> Result<Seq<TypeView>, ErrorView> {
    match r {
        Ok(v) => Ok(views_of(v@)),
        Err(e) => Err(e@),
    }
}

/// The type that a written type denotes in the function being analyzed.
pub fn resolve_parsed_type(context: &AnalyzerContext, t: &ParsedType) -> (r: Option<AnalyzedTypeId>)
    ensures
        opt_type_view(r) == resolve_type(env_of(*context), *t),
{
    context.types.map_generic_parsed_type(&t.value, &context.generic_params)
}

/// Whether a value of type `from` can be cast to type `to`: between equal types, between
/// integers, characters, booleans and enums, and between pointers.
pub fn can_cast_to(from: &AnalyzedTypeId, to: &AnalyzedTypeId) -> (r: bool)
    ensures
        r == spec_can_cast(from@, to@),
{
    if types_equal(from, to) {
        return true;
    }
    let scalar_from = is_scalar_type(from);
    let scalar_to = is_scalar_type(to);
    let pointers = match (from, to) {
        (AnalyzedTypeId::Pointer(_), AnalyzedTypeId::Pointer(_)) => true,
        _ => false,
    };
    (scalar_from && scalar_to) || pointers
}

fn is_scalar_type(t: &AnalyzedTypeId) -> (r: bool)
    ensures
        r == is_scalar(t@),
{
    match t {
        AnalyzedTypeId::Integer(_) | AnalyzedTypeId::Char | AnalyzedTypeId::Bool
        | AnalyzedTypeId::EnumType(_) => true,
        _ => false,
    }
}

pub fn is_integer_type(t: &AnalyzedTypeId) -> (r: bool)
    ensures
        r == (t@ is Integer),
{
    match t {
        AnalyzedTypeId::Integer(_) => true,
        _ => false,
    }
}

pub fn is_bool_type(t: &AnalyzedTypeId) -> (r: bool)
    ensures
        r == (t@ == TypeView::Bool),
{
    match t {
        AnalyzedTypeId::Bool => true,
        _ => false,
    }
}

pub fn is_unit_type(t: &AnalyzedTypeId) -> (r: bool)
    ensures
        r == (t@ == TypeView::Unit),
{
    match t {
        AnalyzedTypeId::Unit => true,
        _ => false,
    }
}

/// The type that a chain of pointers finally points to.
pub fn strip_pointer_type(t: &AnalyzedTypeId) -> (r: &AnalyzedTypeId)
    ensures
        r@ == strip_pointers(t@),
    decreases t,
{
    match t {
        AnalyzedTypeId::Pointer(inner) => strip_pointer_type(inner),
        _ => t,
    }
}

/// The explicit generic arguments of a name, each resolved to a type; the error names
/// the first one that denotes no type.
pub fn analyze_generic_args(context: &AnalyzerContext, generic_args: &Vec<ParsedType>) -> (r: Result<
    Vec<AnalyzedTypeId>,
    AnalyzerError,
>)
    ensures
        types_view(r) == spec_analyze_generic_args(env_of(*context), generic_args@),
{
    let ghost env = env_of(*context);
    let ghost p = |a: ParsedType| resolve_type(env, a) is None;
    let mut out: Vec<AnalyzedTypeId> = Vec::new();
    let mut i: usize = 0;
    while i < generic_args.len()
        invariant
            i <= generic_args@.len(),
            env == env_of(*context),
            p == (|a: ParsedType| resolve_type(env, a) is None),
            out@.len() == i,
            forall|j: int| 0 <= j < i ==> !#[trigger] p(generic_args@[j]),
            forall|j: int|
                0 <= j < i ==> resolve_type(env, generic_args@[j]) == Some(#[trigger] out@[j]@),
        decreases generic_args@.len() - i,
    {
        match resolve_parsed_type(context, &generic_args[i]) {
            Some(t) => {
                out.push(t);
            },
            None => {
                proof {
                    lemma_first_index_found(generic_args@, p, i as int);
                    assert(p =~= (|a: ParsedType| resolve_type(env_of(*context), a) is None));
                }
                return Err(
                    make_error1(
                        AnalyzerErrorKind::GenericArgumentNotFound,
                        &generic_args[i].location,
                        parsed_type_string(&generic_args[i].value),
                    ),
                );
            },
        }
        i += 1;
    }
    proof {
        lemma_first_index_none(generic_args@, p);
        assert(p =~= (|a: ParsedType| resolve_type(env_of(*context), a) is None));
        crate::analyzed_type::lemma_views_of(out@);
        assert(views_of(out@) =~= Seq::new(
            generic_args@.len(),
            |j: int| resolve_type(env, generic_args@[j]).unwrap(),
        ));
    }
    Ok(out)
}

/// The function a name denotes when a function type is expected: the one whose
/// parameters are the expected ones.
fn function_by_signature(
    context: &AnalyzerContext,
    var_name: &ParsedGenericId,
    location: &Location,
    return_type: &AnalyzedTypeId,
    params: &Vec<AnalyzedTypeId>,
    generic_args: Vec<AnalyzedTypeId>,
) -> (r: Result<(AnalyzedTypeId, AnalyzedExpressionKind), AnalyzerError>)
    ensures
        match (r, context.functions.spec_map_function_id(
            var_name.id,
            views_of(params@),
            views_of(generic_args@),
            *location,
        )) {
            (Ok(x), Ok(f)) => pair_view(Ok(x)) == Ok::<(TypeView, KindView), ErrorView>(
                (TypeView::FunctionType(Box::new(return_type@), f.arg_types), KindView::FunctionPointer(f)),
            ),
            (Err(e), Err(g)) => e@ == g,
            _ => false,
        },
{
    match context.functions.map_function_id(&var_name.id, clone_types(params), generic_args, location) {
        Ok(function_ref) => {
            let arg_types = clone_types(&function_ref.arg_types);
            Ok(
                (
                    AnalyzedTypeId::FunctionType(Box::new(clone_type(return_type)), arg_types),
                    AnalyzedExpressionKind::FunctionPointer(function_ref),
                ),
            )
        },
        Err(e) => Err(e),
    }
}

/// The function a name denotes when no function type is expected: the first one with as
/// many generic parameters as arguments were given.
fn function_by_name(
    context: &AnalyzerContext,
    var_name: &ParsedGenericId,
    location: &Location,
    generic_args: Vec<AnalyzedTypeId>,
) -> (r: Result<(AnalyzedTypeId, AnalyzedExpressionKind), AnalyzerError>)
    ensures
        match (r, context.functions.spec_function_id_from_scope_id(
            var_name.id,
            views_of(generic_args@),
            *location,
        )) {
            (Ok(x), Ok(f)) => pair_view(Ok(x)) == Ok::<(TypeView, KindView), ErrorView>(
                (
                    TypeView::FunctionType(
                        Box::new(crate::analysis_spec::call_return_type(context.functions, f)),
                        f.arg_types,
                    ),
                    KindView::FunctionPointer(f),
                ),
            ),
            (Err(e), Err(g)) => e@ == g,
            _ => false,
        },
{
    match context.functions.function_id_from_scope_id(&var_name.id, generic_args, location) {
        Ok(function_ref) => {
            let header = context.functions.get_header(&function_ref.id);
            let return_type = substitute_generic_type(
                &header.return_type,
                &header.generic_params,
                &function_ref.generic_args,
            );
            let arg_types = clone_types(&function_ref.arg_types);
            Ok(
                (
                    AnalyzedTypeId::FunctionType(Box::new(return_type), arg_types),
                    AnalyzedExpressionKind::FunctionPointer(function_ref),
                ),
            )
        },
        Err(e) => Err(e),
    }
}

/// What a name denotes as a function, when anything: see `spec_variable_function`.
fn variable_function(
    context: &AnalyzerContext,
    var_name: &ParsedGenericId,
    location: &Location,
    type_hint: Option<&AnalyzedTypeId>,
    generic_args: Vec<AnalyzedTypeId>,
) -> (r: Option<Result<(AnalyzedTypeId, AnalyzedExpressionKind), AnalyzerError>>)
    ensures
        match (r, spec_variable_function(
            env_of(*context),
            *var_name,
            *location,
            opt_ref_view(type_hint),
            views_of(generic_args@),
        )) {
            (Some(x), Some(y)) => pair_view(x) == y,
            (None, None) => true,
            _ => false,
        },
{
    let explicit = var_name.generic_args.len() > 0;
    let found = match type_hint {
        Some(AnalyzedTypeId::FunctionType(return_type, params)) => function_by_signature(
            context,
            var_name,
            location,
            return_type,
            params,
            generic_args,
        ),
        _ => function_by_name(context, var_name, location, generic_args),
    };
    match found {
        Ok(x) => Some(Ok(x)),
        Err(e) => if explicit {
            Some(Err(e))
        } else {
            None
        },
    }
}

/// What a qualified name denotes as an enum variant: see `spec_variable_enum`.
fn variable_enum(context: &AnalyzerContext, var_name: &ParsedGenericId, location: &Location) -> (r:
    Result<(AnalyzedTypeId, AnalyzedExpressionKind), AnalyzerError>)
    ensures
        pair_view(r) == spec_variable_enum(env_of(*context), *var_name, *location),
{
    let file = match &location.file {
        Some(f) => f,
        None => {
            return Err(make_error(AnalyzerErrorKind::ExpectedModuleLocal, location));
        },
    };
    match context.types.get_enum_from_variant(&var_name.id.item_id, &file.id) {
        Some(enum_type) => match enum_type.get_variant_value(&var_name.id.item_id.item_name) {
            Some(value) => Ok(
                (
                    AnalyzedTypeId::EnumType(enum_type.id),
                    AnalyzedExpressionKind::Literal(AnalyzedLiteral::Integer(value)),
                ),
            ),
            None => Err(
                make_error1(AnalyzerErrorKind::EnumVariantNotFound, location, var_name.id.item_id.item_name.clone()),
            ),
        },
        None => Err(make_error(AnalyzerErrorKind::ExpectedModuleLocal, location)),
    }
}

/// What a name used as a value denotes: a local variable of the current module; else a
/// function (matched against `type_hint` when a function type is expected); else, for a
/// qualified name, an enum variant.
#[verifier::rlimit(40)]
pub fn determine_variable_expression(
    context: &AnalyzerContext,
    var_name: &ParsedGenericId,
    location: &Location,
    type_hint: Option<&AnalyzedTypeId>,
) -> (r: Result<(AnalyzedTypeId, AnalyzedExpressionKind), AnalyzerError>)
    ensures
        pair_view(r) == spec_determine_variable(
            env_of(*context),
            context.local_variables@,
            *var_name,
            *location,
            opt_ref_view(type_hint),
        ),
{
    let name = &var_name.id.item_id.item_name;
    if var_name.id.is_module_local && var_name.generic_args.len() == 0 {
        match context.local_variables.get(name) {
            Some(local_var) => {
                return Ok(
                    (
                        clone_type(&local_var.ty),
                        AnalyzedExpressionKind::ValueOfAssignable(
                            AssignableExpression {
                                kind: AssignableExpressionKind::LocalVariable(name.clone()),
                                ty: clone_type(&local_var.ty),
                            },
                        ),
                    ),
                );
            },
            None => {},
        }
    }
    let generic_args = match analyze_generic_args(context, &var_name.generic_args) {
        Ok(a) => a,
        Err(e) => return Err(e),
    };
    match variable_function(context, var_name, location, type_hint, generic_args) {
        Some(r) => r,
        None => if var_name.generic_args.len() > 0 {
            Err(make_error1(AnalyzerErrorKind::FunctionNotFound, location, generic_id_string(var_name)))
        } else if !var_name.id.is_module_local {
            variable_enum(context, var_name, location)
        } else {
            Err(make_error1(AnalyzerErrorKind::VariableOrFunctionNotFound, location, generic_id_string(var_name)))
        },
    }
}

/// The checks of a loop once its parts are analyzed: init of unit type, condition of
/// boolean type, step of unit or integer type, body of unit type, and `break`s of the
/// type the loop requires.
pub fn finish_loop(
    location: &Location,
    init: Option<Box<AnalyzedExpression>>,
    condition: Option<Box<AnalyzedExpression>>,
    step: Option<Box<AnalyzedExpression>>,
    body: AnalyzedExpression,
    else_expr: Option<Box<AnalyzedExpression>>,
) -> (r: Result<AnalyzedExpression, AnalyzerError>)
    ensures
        forall|l: Locals|
            #[trigger] spec_finish_loop(
                *location,
                opt_view(init),
                opt_view(condition),
                opt_view(step),
                body@,
                opt_view(else_expr),
                l,
            ) == (res_view(r), l),
{
    let init_bad = match &init {
        Some(x) => !is_unit_type(&x.ty),
        None => false,
    };
    if init_bad {
        let t = match &init {
            Some(x) => type_string(&x.ty),
            None => String::new(),
        };
        return Err(make_error1(AnalyzerErrorKind::LoopInitNotUnit, location, t));
    }
    let condition_bad = match &condition {
        Some(x) => !is_bool_type(&x.ty),
        None => false,
    };
    if condition_bad {
        let t = match &condition {
            Some(x) => type_string(&x.ty),
            None => String::new(),
        };
        return Err(make_error1(AnalyzerErrorKind::LoopConditionNotBool, location, t));
    }
    let step_bad = match &step {
        Some(x) => !(is_unit_type(&x.ty) || is_integer_type(&x.ty)),
        None => false,
    };
    if step_bad {
        let t = match &step {
            Some(x) => type_string(&x.ty),
            None => String::new(),
        };
        return Err(make_error1(AnalyzerErrorKind::LoopStepNotUnitOrInteger, location, t));
    }
    if !is_unit_type(&body.ty) {
        return Err(make_error1(AnalyzerErrorKind::LoopBodyNotUnit, location, type_string(&body.ty)));
    }
    let required: Option<AnalyzedTypeId> = if condition.is_some() {
        match &else_expr {
            Some(x) => Some(clone_type(&x.ty)),
            None => Some(AnalyzedTypeId::Unit),
        }
    } else {
        None
    };
    proof {
        assert(opt_type_view(required) == required_break_type(
            opt_view(condition) is Some,
            match opt_view(else_expr) {
                Some(x) => Some(x.ty),
                None => None,
            },
        ));
    }
    match assert_break_return_type(required.as_ref(), &body) {
        Err(e) => Err(e),
        Ok(t) => {
            let ty = match t {
                Some(x) => x,
                None => AnalyzedTypeId::Unit,
            };
            Ok(
                AnalyzedExpression {
                    kind: AnalyzedExpressionKind::Loop {
                        init,
                        condition,
                        step,
                        loop_body: Box::new(body),
                        else_expr,
                    },
                    ty,
                    location: *location,
                },
            )
        },
    }
}

/// The field `member` of the struct that `value` is or points to.
#[verifier::rlimit(40)]
fn member_access(
    context: &AnalyzerContext,
    member: &String,
    expr_location: &Location,
    location: &Location,
    value: AnalyzedExpression,
) -> (r: Result<AnalyzedExpression, AnalyzerError>)
    ensures
        forall|l: Locals|
            #[trigger] spec_finish_unary(
                env_of(*context),
                UnaryOp::Member(*member),
                *expr_location,
                *location,
                value@,
                l,
            ) == (res_view(r), l),
{
    let inner = strip_pointer_type(&value.ty);
    let decl = match context.types.get_struct_from_type(inner) {
        Some(d) => d,
        None => {
            return Err(make_error1(AnalyzerErrorKind::MemberOfNonStruct, expr_location, type_string(inner)));
        },
    };
    let field_type = match inner {
        AnalyzedTypeId::StructType(struct_ref) => decl.get_field_type(member, &struct_ref.generic_args),
        _ => None,
    };
    let field_type = match field_type {
        Some(t) => t,
        None => {
            return Err(make_error2(AnalyzerErrorKind::MemberNotFound, expr_location, type_string(&value.ty), member.clone()));
        },
    };
    let through_pointer = match &value.ty {
        AnalyzedTypeId::Pointer(_) => true,
        _ => false,
    };
    if through_pointer {
        let ghost v = value@;
        let a = AssignableExpression {
            kind: AssignableExpressionKind::PointerFieldAccess(Box::new(value), member.clone(), 1),
            ty: clone_type(&field_type),
        };
        assert(a@.kind == crate::analyzed_expression::AssignableKindView::PointerFieldAccess(
            Box::new(v),
            member@,
            1,
        ));
        Ok(
            AnalyzedExpression {
                kind: AnalyzedExpressionKind::ValueOfAssignable(a),
                ty: field_type,
                location: *location,
            },
        )
    } else {
        Ok(
            AnalyzedExpression {
                kind: AnalyzedExpressionKind::FieldAccess {
                    expr: Box::new(value),
                    field_name: member.clone(),
                },
                ty: field_type,
                location: *location,
            },
        )
    }
}

/// The checks of a unary expression whose operand is a value, once the operand is
/// analyzed.
pub fn finish_unary(
    context: &AnalyzerContext,
    op: &UnaryOp,
    expr_location: &Location,
    location: &Location,
    value: AnalyzedExpression,
) -> (r: Result<AnalyzedExpression, AnalyzerError>)
    ensures
        forall|l: Locals|
            #[trigger] spec_finish_unary(
                env_of(*context),
                *op,
                *expr_location,
                *location,
                value@,
                l,
            ) == (res_view(r), l),
{
    match op {
        UnaryOp::Math(m) => {
            if !is_integer_type(&value.ty) {
                return Err(make_error1(AnalyzerErrorKind::MathUnaryNotInteger, location, type_string(&value.ty)));
            }
            let ty = clone_type(&value.ty);
            Ok(
                AnalyzedExpression {
                    kind: AnalyzedExpressionKind::Unary {
                        op: AnalyzedUnaryOp::Math(*m),
                        expr: Box::new(value),
                    },
                    ty,
                    location: *location,
                },
            )
        },
        UnaryOp::LogicalNot => {
            if !is_bool_type(&value.ty) {
                return Err(make_error1(AnalyzerErrorKind::LogicalNotNotBool, location, type_string(&value.ty)));
            }
            Ok(
                AnalyzedExpression {
                    kind: AnalyzedExpressionKind::Unary {
                        op: AnalyzedUnaryOp::LogicalNot,
                        expr: Box::new(value),
                    },
                    ty: AnalyzedTypeId::Bool,
                    location: *location,
                },
            )
        },
        UnaryOp::Dereference => {
            let inner = match &value.ty {
                AnalyzedTypeId::Pointer(inner) => clone_type(inner),
                _ => {
                    return Err(make_error1(AnalyzerErrorKind::DereferenceNotPointer, location, type_string(&value.ty)));
                },
            };
            let ghost v = value@;
            let a = AssignableExpression {
                kind: AssignableExpressionKind::Dereference(Box::new(value)),
                ty: clone_type(&inner),
            };
            assert(a@.kind == crate::analyzed_expression::AssignableKindView::Dereference(Box::new(v)));
            Ok(
                AnalyzedExpression {
                    kind: AnalyzedExpressionKind::ValueOfAssignable(a),
                    ty: inner,
                    location: *location,
                },
            )
        },
        UnaryOp::Cast(target_type) => {
            let resolved = match resolve_parsed_type(context, target_type) {
                Some(t) => t,
                None => {
                    return Err(make_error1(AnalyzerErrorKind::CastTypeNotFound, &target_type.location, parsed_type_string(&target_type.value)));
                },
            };
            if can_cast_to(&value.ty, &resolved) {
                Ok(
                    AnalyzedExpression {
                        kind: AnalyzedExpressionKind::Unary {
                            op: AnalyzedUnaryOp::Cast,
                            expr: Box::new(value),
                        },
                        ty: resolved,
                        location: *location,
                    },
                )
            } else {
                Err(make_error2(AnalyzerErrorKind::InvalidCast, location, type_string(&value.ty), type_string(&resolved)))
            }
        },
        UnaryOp::Member(member) => member_access(context, member, expr_location, location, value),
        _ => Err(make_error(AnalyzerErrorKind::NotAssignable, location)),
    }
}

/// The checks of a binary expression on two values, once both are analyzed.
pub fn finish_binary(
    op: BinaryOp,
    left_location: &Location,
    right_location: &Location,
    location: &Location,
    left: AnalyzedExpression,
    right: AnalyzedExpression,
) -> (r: Result<AnalyzedExpression, AnalyzerError>)
    ensures
        forall|l: Locals|
            #[trigger] spec_finish_binary(
                op,
                *left_location,
                *right_location,
                *location,
                left@,
                right@,
                l,
            ) == (res_view(r), l),
{
    match op {
        BinaryOp::Index => {
            if !is_integer_type(&right.ty) {
                return Err(make_error1(AnalyzerErrorKind::IndexNotInteger, right_location, type_string(&right.ty)));
            }
            let inner = match &left.ty {
                AnalyzedTypeId::Pointer(inner) => clone_type(inner),
                _ => {
                    return Err(make_error1(AnalyzerErrorKind::IndexNotPointer, left_location, type_string(&left.ty)));
                },
            };
            let ghost lv = left@;
            let ghost rv = right@;
            let a = AssignableExpression {
                kind: AssignableExpressionKind::ArrayIndex(Box::new(left), Box::new(right)),
                ty: clone_type(&inner),
            };
            assert(a@.kind == crate::analyzed_expression::AssignableKindView::ArrayIndex(
                Box::new(lv),
                Box::new(rv),
            ));
            Ok(
                AnalyzedExpression {
                    kind: AnalyzedExpressionKind::ValueOfAssignable(a),
                    ty: inner,
                    location: *location,
                },
            )
        },
        BinaryOp::Math(m) => {
            if !is_integer_type(&left.ty) {
                return Err(make_error1(AnalyzerErrorKind::MathLeftNotInteger, left_location, type_string(&left.ty)));
            }
            if !types_equal(&left.ty, &right.ty) {
                return Err(make_error2(AnalyzerErrorKind::MathOperandMismatch, right_location, type_string(&left.ty), type_string(&right.ty)));
            }
            let ty = clone_type(&left.ty);
            Ok(
                AnalyzedExpression {
                    kind: AnalyzedExpressionKind::Binary {
                        op: AnalyzedBinaryOp::Math(m),
                        left: Box::new(left),
                        right: Box::new(right),
                    },
                    ty,
                    location: *location,
                },
            )
        },
        BinaryOp::Logical(lo) => {
            if !is_bool_type(&left.ty) {
                return Err(make_error1(AnalyzerErrorKind::LogicLeftNotBool, left_location, type_string(&left.ty)));
            }
            if !is_bool_type(&right.ty) {
                return Err(make_error1(AnalyzerErrorKind::LogicRightNotBool, right_location, type_string(&right.ty)));
            }
            Ok(
                AnalyzedExpression {
                    kind: AnalyzedExpressionKind::Binary {
                        op: AnalyzedBinaryOp::Logical(lo),
                        left: Box::new(left),
                        right: Box::new(right),
                    },
                    ty: AnalyzedTypeId::Bool,
                    location: *location,
                },
            )
        },
        BinaryOp::Comparison(c) => {
            let needs_integers = match c {
                crate::parsed_expression::BinaryComparisonOp::Equals
                | crate::parsed_expression::BinaryComparisonOp::NotEquals => false,
                _ => true,
            };
            let ok = match &left.ty {
                AnalyzedTypeId::Integer(_) => true,
                AnalyzedTypeId::Char | AnalyzedTypeId::Bool | AnalyzedTypeId::EnumType(_) => !needs_integers,
                _ => false,
            };
            proof {
                assert(ok == comparable(c, left@.ty));
            }
            if !ok {
                return Err(make_error1(AnalyzerErrorKind::ComparisonNotComparable, left_location, type_string(&left.ty)));
            }
            if !types_equal(&left.ty, &right.ty) {
                return Err(make_error2(AnalyzerErrorKind::ComparisonOperandMismatch, right_location, type_string(&left.ty), type_string(&right.ty)));
            }
            Ok(
                AnalyzedExpression {
                    kind: AnalyzedExpressionKind::Binary {
                        op: AnalyzedBinaryOp::Comparison(c),
                        left: Box::new(left),
                        right: Box::new(right),
                    },
                    ty: AnalyzedTypeId::Bool,
                    location: *location,
                },
            )
        },
        _ => Err(make_error(AnalyzerErrorKind::NotAssignable, location)),
    }
}

/// The checks of an assignment once its right side and its target are analyzed.
pub fn finish_assign(
    op: BinaryOp,
    left_location: &Location,
    right_location: &Location,
    location: &Location,
    target: Result<AssignableExpression, AnalyzerError>,
    right: AnalyzedExpression,
) -> (r: Result<AnalyzedExpression, AnalyzerError>)
    ensures
        forall|l: Locals|
            #[trigger] spec_finish_assign(
                op,
                *left_location,
                *right_location,
                *location,
                target_view(target),
                right@,
                l,
            ) == (res_view(r), l),
{
    let (kind, assign_op) = match op {
        BinaryOp::Assign => (AnalyzerErrorKind::InvalidAssign, BinaryAssignOp::Assign),
        BinaryOp::MathAssign(m) => (AnalyzerErrorKind::InvalidMathAssign, BinaryAssignOp::MathAssign(m)),
        BinaryOp::LogicAssign(lo) => (AnalyzerErrorKind::InvalidLogicAssign, BinaryAssignOp::LogicAssign(lo)),
        _ => {
            return Err(make_error(AnalyzerErrorKind::NotAssignable, location));
        },
    };
    let target = match target {
        Ok(a) => a,
        Err(e) => {
            return Err(wrap_error(kind, location, e));
        },
    };
    match op {
        BinaryOp::Assign => {
            if !types_equal(&target.ty, &right.ty) {
                return Err(make_error2(AnalyzerErrorKind::AssignTypeMismatch, right_location, type_string(&target.ty), type_string(&right.ty)));
            }
        },
        BinaryOp::MathAssign(_) => {
            if !is_integer_type(&target.ty) {
                return Err(make_error1(AnalyzerErrorKind::MathAssignNotInteger, left_location, type_string(&target.ty)));
            }
            if !types_equal(&target.ty, &right.ty) {
                return Err(make_error2(AnalyzerErrorKind::MathAssignTypeMismatch, right_location, type_string(&target.ty), type_string(&right.ty)));
            }
        },
        _ => {
            if !is_bool_type(&target.ty) {
                return Err(make_error1(AnalyzerErrorKind::LogicAssignLeftNotBool, left_location, type_string(&target.ty)));
            }
            if !is_bool_type(&right.ty) {
                return Err(make_error1(AnalyzerErrorKind::LogicAssignRightNotBool, right_location, type_string(&right.ty)));
            }
        },
    }
    let ty = clone_type(&target.ty);
    Ok(
        AnalyzedExpression {
            kind: AnalyzedExpressionKind::Assign { op: assign_op, lhs: target, rhs: Box::new(right) },
            ty,
            location: *location,
        },
    )
}

/// The field `member` of the struct that place `a` holds or points to, as a place.
pub fn assignable_member(
    context: &AnalyzerContext,
    member: &String,
    expr_location: &Location,
    a: AssignableExpression,
) -> (r: Result<AssignableExpression, AnalyzerError>)
    ensures
        target_view(r) == spec_assignable_member(env_of(*context), member@, *expr_location, a@),
{
    let inner = strip_pointer_type(&a.ty);
    let decl = match context.types.get_struct_from_type(inner) {
        Some(d) => d,
        None => {
            return Err(make_error(AnalyzerErrorKind::MemberOfNonStruct, expr_location));
        },
    };
    let field_type = match inner {
        AnalyzedTypeId::StructType(struct_ref) => decl.get_field_type(member, &struct_ref.generic_args),
        _ => None,
    };
    let field_type = match field_type {
        Some(t) => t,
        None => {
            return Err(make_error(AnalyzerErrorKind::MemberNotFound, expr_location));
        },
    };
    let through_pointer = match &a.ty {
        AnalyzedTypeId::Pointer(_) => true,
        _ => false,
    };
    if through_pointer {
        let ty = clone_type(&a.ty);
        let ghost av = a@;
        let value = AnalyzedExpression {
            kind: AnalyzedExpressionKind::ValueOfAssignable(a),
            ty,
            location: *expr_location,
        };
        assert(value@ == crate::analysis_spec::mk(KindView::ValueOfAssignable(av), av.ty, *expr_location));
        let r = AssignableExpression {
            kind: AssignableExpressionKind::PointerFieldAccess(Box::new(value), member.clone(), 1),
            ty: field_type,
        };
        assert(r@.kind == crate::analyzed_expression::AssignableKindView::PointerFieldAccess(
            Box::new(value@),
            member@,
            1,
        ));
        Ok(r)
    } else {
        let ghost av = a@;
        let r = AssignableExpression {
            kind: AssignableExpressionKind::FieldAccess(Box::new(a), member.clone()),
            ty: field_type,
        };
        assert(r@.kind == crate::analyzed_expression::AssignableKindView::FieldAccess(
            Box::new(av),
            member@,
        ));
        Ok(r)
    }
}

} // verus!
