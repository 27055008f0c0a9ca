use vstd::prelude::*;
use crate::analyzed_type::{
    spec_check_matches, spec_check_matches_pairs, spec_resolve_all, spec_resolve_generic_type, spec_resolve_param,
    GenericId, TypeView,
};
use crate::analyzed_text::type_text;
use crate::analyzer_error::{error_with, AnalyzerErrorKind};
use crate::location::Location;
use crate::text::nat_text;

verus! {

/// No generic parameter occurs in `t`, through pointers, struct arguments or function
/// types.
pub open spec fn has_no_generics(t: TypeView) -> bool
    decreases t,
{
    match t {
        TypeView::GenericType(_) => false,
        TypeView::Pointer(inner) => has_no_generics(*inner),
        TypeView::StructType(_, gs) => all_have_no_generics(gs),
        TypeView::FunctionType(ret, ps) => has_no_generics(*ret) && all_have_no_generics(ps),
        _ => true,
    }
}

/// No generic parameter occurs in any type of `s`.
pub open spec fn all_have_no_generics(s: Seq<TypeView>) -> bool
    decreases s,
{
    if s.len() == 0 {
        true
    } else {
        has_no_generics(s[0]) && all_have_no_generics(s.subrange(1, s.len() as int))
    }
}

/// Every generic parameter that occurs in `t` has an argument, and that argument holds no
/// generic parameter itself.
pub open spec fn resolves_to_plain(t: TypeView, ids: Seq<GenericId>, args: Seq<TypeView>) -> bool
    decreases t,
{
    match t {
        TypeView::GenericType(g) => match spec_resolve_param(ids, g, args) {
            Some(a) => has_no_generics(a),
            None => false,
        },
        TypeView::Pointer(inner) => resolves_to_plain(*inner, ids, args),
        TypeView::StructType(_, gs) => all_resolve_to_plain(gs, ids, args),
        TypeView::FunctionType(ret, ps) => resolves_to_plain(*ret, ids, args) && all_resolve_to_plain(
            ps,
            ids,
            args,
        ),
        _ => true,
    }
}

/// `resolves_to_plain` for every type of `s`.
pub open spec fn all_resolve_to_plain(s: Seq<TypeView>, ids: Seq<GenericId>, args: Seq<TypeView>) -> bool
    decreases s,
{
    if s.len() == 0 {
        true
    } else {
        resolves_to_plain(s[0], ids, args) && all_resolve_to_plain(s.subrange(1, s.len() as int), ids, args)
    }
}

/// Replacing generic parameters leaves a type in which none occurs as it is, whatever the
/// parameters and arguments.
pub proof fn law_resolve_plain_type_unchanged(t: TypeView, ids: Seq<GenericId>, args: Seq<TypeView>)
    requires
        has_no_generics(t),
    ensures
        spec_resolve_generic_type(t, ids, args) == t,
    decreases t, 1nat,
{
    match t {
        TypeView::Pointer(inner) => law_resolve_plain_type_unchanged(*inner, ids, args),
        TypeView::StructType(_, gs) => lemma_resolve_all_plain_unchanged(gs, ids, args),
        TypeView::FunctionType(ret, ps) => {
            law_resolve_plain_type_unchanged(*ret, ids, args);
            lemma_resolve_all_plain_unchanged(ps, ids, args);
        },
        _ => {},
    }
}

proof fn lemma_resolve_all_plain_unchanged(s: Seq<TypeView>, ids: Seq<GenericId>, args: Seq<TypeView>)
    requires
        all_have_no_generics(s),
    ensures
        spec_resolve_all(s, ids, args) == s,
    decreases s, 0nat,
{
    if s.len() > 0 {
        law_resolve_plain_type_unchanged(s[0], ids, args);
        lemma_resolve_all_plain_unchanged(s.subrange(1, s.len() as int), ids, args);
        assert(spec_resolve_all(s, ids, args) =~= s);
    }
}

/// When every generic parameter of `t` is bound to an argument without generic
/// parameters, replacing them leaves none, and replacing once more changes nothing.
pub proof fn law_resolve_twice(t: TypeView, ids: Seq<GenericId>, args: Seq<TypeView>)
    requires
        resolves_to_plain(t, ids, args),
    ensures
        has_no_generics(spec_resolve_generic_type(t, ids, args)),
        spec_resolve_generic_type(spec_resolve_generic_type(t, ids, args), ids, args)
            == spec_resolve_generic_type(t, ids, args),
{
    lemma_resolved_is_plain(t, ids, args);
    law_resolve_plain_type_unchanged(spec_resolve_generic_type(t, ids, args), ids, args);
}

proof fn lemma_resolved_is_plain(t: TypeView, ids: Seq<GenericId>, args: Seq<TypeView>)
    requires
        resolves_to_plain(t, ids, args),
    ensures
        has_no_generics(spec_resolve_generic_type(t, ids, args)),
    decreases t, 1nat,
{
    match t {
        TypeView::Pointer(inner) => lemma_resolved_is_plain(*inner, ids, args),
        TypeView::StructType(_, gs) => lemma_all_resolved_are_plain(gs, ids, args),
        TypeView::FunctionType(ret, ps) => {
            lemma_resolved_is_plain(*ret, ids, args);
            lemma_all_resolved_are_plain(ps, ids, args);
        },
        _ => {},
    }
}

proof fn lemma_all_resolved_are_plain(s: Seq<TypeView>, ids: Seq<GenericId>, args: Seq<TypeView>)
    requires
        all_resolve_to_plain(s, ids, args),
    ensures
        all_have_no_generics(spec_resolve_all(s, ids, args)),
    decreases s, 0nat,
{
    if s.len() > 0 {
        let rest = s.subrange(1, s.len() as int);
        lemma_resolved_is_plain(s[0], ids, args);
        lemma_all_resolved_are_plain(rest, ids, args);
        let r = spec_resolve_all(s, ids, args);
        assert(r[0] == spec_resolve_generic_type(s[0], ids, args));
        assert(r.subrange(1, r.len() as int) =~= spec_resolve_all(rest, ids, args));
    }
}

/// A type with no parts: unit, `bool`, `char`, an integer type or an enum type.
pub open spec fn is_simple_type(t: TypeView) -> bool {
    t is Unit || t is Bool || t is Char || t is Integer || t is EnumType
}

/// Matching a type against a simple type succeeds exactly when the two are equal, and
/// binds nothing; when they differ the error names the argument type, then the
/// parameter type.
pub proof fn law_simple_type_matches_only_itself(
    arg: TypeView,
    param: TypeView,
    map: Map<GenericId, TypeView>,
    location: Location,
)
    requires
        is_simple_type(param),
    ensures
        spec_check_matches(arg, param, map, location).1 == map,
        spec_check_matches(arg, param, map, location).0 is None <==> arg == param,
        arg != param ==> spec_check_matches(arg, param, map, location).0 == Some(
            error_with(AnalyzerErrorKind::TypeMismatch, location, seq![type_text(arg), type_text(param)]),
        ),
{
}

/// Matching two function types succeeds only if their return types match too: after the
/// parameters, the return types are matched under the bindings found so far.
pub proof fn law_function_match_needs_return_match(
    ra: TypeView,
    pa: Seq<TypeView>,
    rp: TypeView,
    pp: Seq<TypeView>,
    map: Map<GenericId, TypeView>,
    location: Location,
)
    requires
        spec_check_matches(
            TypeView::FunctionType(Box::new(ra), pa),
            TypeView::FunctionType(Box::new(rp), pp),
            map,
            location,
        ).0 is None,
    ensures
        exists|m: Map<GenericId, TypeView>| #[trigger] spec_check_matches(ra, rp, m, location).0 is None,
{
    let n = if pa.len() < pp.len() {
        pa.len()
    } else {
        pp.len()
    };
    let m1 = spec_check_matches_pairs(pa, pp, n, map, location).1;
    assert(spec_check_matches(ra, rp, m1, location).0 is None);
}

/// A function type whose return type differs from a simple expected return type is
/// refused, whatever the parameters.
pub proof fn law_function_return_mismatch_refused(
    ra: TypeView,
    pa: Seq<TypeView>,
    rp: TypeView,
    pp: Seq<TypeView>,
    map: Map<GenericId, TypeView>,
    location: Location,
)
    requires
        is_simple_type(rp),
        ra != rp,
    ensures
        spec_check_matches(
            TypeView::FunctionType(Box::new(ra), pa),
            TypeView::FunctionType(Box::new(rp), pp),
            map,
            location,
        ).0 is Some,
{
    let n = if pa.len() < pp.len() {
        pa.len()
    } else {
        pp.len()
    };
    let m1 = spec_check_matches_pairs(pa, pp, n, map, location).1;
    law_simple_type_matches_only_itself(ra, rp, m1, location);
}

/// Matching any type against a generic parameter binds the parameter to that type; it
/// fails, naming the parameter, exactly when the parameter was already bound to another
/// type.
pub proof fn law_generic_parameter_binds(arg: TypeView, g: GenericId, map: Map<GenericId, TypeView>, location: Location)
    ensures
        spec_check_matches(arg, TypeView::GenericType(g), map, location).1 == map.insert(g, arg),
        spec_check_matches(arg, TypeView::GenericType(g), map, location).0 is None <==> (!map.contains_key(g)
            || map[g] == arg),
        spec_check_matches(arg, TypeView::GenericType(g), map, location).0 is Some ==> spec_check_matches(
            arg,
            TypeView::GenericType(g),
            map,
            location,
        ).0 == Some(error_with(AnalyzerErrorKind::AmbiguousGenericArgument, location, seq![nat_text(g as nat)])),
{
}

/// Pointer types match exactly when the types they point to match.
pub proof fn law_pointers_match_by_target(a: TypeView, p: TypeView, map: Map<GenericId, TypeView>, location: Location)
    ensures
        spec_check_matches(TypeView::Pointer(Box::new(a)), TypeView::Pointer(Box::new(p)), map, location)
            == spec_check_matches(a, p, map, location),
{
}

} // verus!
