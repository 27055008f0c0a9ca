use vstd::prelude::*;
use std::collections::HashMap;
use crate::analyzer_error::{AnalyzerError, AnalyzerErrorKind, ErrorView, error_with, make_error1, make_error2};
use crate::analyzed_text::{type_string, type_text};
use crate::text::{nat_text, u64_string};
use crate::location::Location;

verus! {

broadcast use vstd::std_specs::hash::group_hash_axioms;

/// Identifier of a struct declaration.
pub type StructId = u64;

/// Identifier of an enum declaration.
pub type EnumId = u64;

/// Identifier of a generic parameter.
pub type GenericId = u64;

/// A struct type: the struct and the types its generic parameters are bound to.
#[derive(Debug)]
pub struct StructRef {
    pub id: StructId,
    pub generic_args: Vec<AnalyzedTypeId>,
}

/// The types that expressions have after analysis.
#[derive(Debug)]
pub enum AnalyzedTypeId {
    Unit,
    Bool,
    Char,
    Integer(u32),
    Pointer(Box<AnalyzedTypeId>),
    StructType(StructRef),
    EnumType(EnumId),
    FunctionType(Box<AnalyzedTypeId>, Vec<AnalyzedTypeId>),
    GenericType(GenericId),
}

/// Mathematical model of an analyzed type.
pub enum TypeView {
    Unit,
    Bool,
    Char,
    Integer(u32),
    Pointer(Box<TypeView>),
    StructType(StructId, Seq<TypeView>),
    EnumType(EnumId),
    FunctionType(Box<TypeView>, Seq<TypeView>),
    GenericType(GenericId),
}

/// The models of a sequence of types, in order.
pub open spec fn views_of(s: Seq<AnalyzedTypeId>) -> Seq<TypeView>
    decreases s,
{
    if s.len() == 0 {
        Seq::empty()
    } else {
        seq![s[0].view()] + views_of(s.subrange(1, s.len() as int))
    }
}

impl View for AnalyzedTypeId {
    type V = TypeView;

    open spec fn view(&self) -> TypeView
        decreases self,
    {
        match self {
            AnalyzedTypeId::Unit => TypeView::Unit,
            AnalyzedTypeId::Bool => TypeView::Bool,
            AnalyzedTypeId::Char => TypeView::Char,
            AnalyzedTypeId::Integer(n) => TypeView::Integer(*n),
            AnalyzedTypeId::Pointer(inner) => TypeView::Pointer(Box::new((**inner).view())),
            AnalyzedTypeId::StructType(r) => TypeView::StructType(r.id, views_of(r.generic_args@)),
            AnalyzedTypeId::EnumType(id) => TypeView::EnumType(*id),
            AnalyzedTypeId::FunctionType(ret, params) => TypeView::FunctionType(
                Box::new((**ret).view()),
                views_of(params@),
            ),
            AnalyzedTypeId::GenericType(id) => TypeView::GenericType(*id),
        }
    }
}

pub proof fn lemma_views_of(s: Seq<AnalyzedTypeId>)
    ensures
        views_of(s).len() == s.len(),
        forall|i: int| 0 <= i < s.len() ==> #[trigger] views_of(s)[i] == s[i]@,
    decreases s.len(),
{
    if s.len() > 0 {
        let rest = s.subrange(1, s.len() as int);
        lemma_views_of(rest);
        assert(views_of(s) == seq![s[0]@] + views_of(rest));
        assert forall|i: int| 0 <= i < s.len() implies #[trigger] views_of(s)[i] == s[i]@ by {
            if i > 0 {
                assert(views_of(s)[i] == views_of(rest)[i - 1]);
                assert(rest[i - 1] == s[i]);
            }
        }
    }
}

/// Two sequences of types with pointwise equal models have equal models.
pub proof fn lemma_views_of_ext(a: Seq<AnalyzedTypeId>, b: Seq<AnalyzedTypeId>)
    requires
        a.len() == b.len(),
        forall|i: int| 0 <= i < a.len() ==> #[trigger] a[i]@ == b[i]@,
    ensures
        views_of(a) == views_of(b),
{
    lemma_views_of(a);
    lemma_views_of(b);
    assert(views_of(a) =~= views_of(b));
}

/// Copy of a type.
pub fn clone_type(t: &AnalyzedTypeId) -> (r: AnalyzedTypeId)
    ensures
        r@ == t@,
    decreases t,
{
    match t {
        AnalyzedTypeId::Unit => AnalyzedTypeId::Unit,
        AnalyzedTypeId::Bool => AnalyzedTypeId::Bool,
        AnalyzedTypeId::Char => AnalyzedTypeId::Char,
        AnalyzedTypeId::Integer(n) => AnalyzedTypeId::Integer(*n),
        AnalyzedTypeId::Pointer(inner) => AnalyzedTypeId::Pointer(Box::new(clone_type(inner))),
        AnalyzedTypeId::StructType(r) => AnalyzedTypeId::StructType(
            StructRef { id: r.id, generic_args: clone_types(&r.generic_args) },
        ),
        AnalyzedTypeId::EnumType(id) => AnalyzedTypeId::EnumType(*id),
        AnalyzedTypeId::FunctionType(ret, params) => AnalyzedTypeId::FunctionType(
            Box::new(clone_type(ret)),
            clone_types(params),
        ),
        AnalyzedTypeId::GenericType(id) => AnalyzedTypeId::GenericType(*id),
    }
}

/// Copy of a sequence of types.
pub fn clone_types(v: &Vec<AnalyzedTypeId>) -> (r: Vec<AnalyzedTypeId>)
    ensures
        r@.len() == v@.len(),
        forall|i: int| 0 <= i < v@.len() ==> #[trigger] r@[i]@ == v@[i]@,
        views_of(r@) == views_of(v@),
    decreases v,
{
    let mut r: Vec<AnalyzedTypeId> = Vec::new();
    let mut i: usize = 0;
    while i < v.len()
        invariant
            i <= v@.len(),
            r@.len() == i,
            forall|j: int| 0 <= j < i ==> #[trigger] r@[j]@ == v@[j]@,
        decreases v@.len() - i,
    {
        r.push(clone_type(&v[i]));
        i += 1;
    }
    proof {
        lemma_views_of_ext(r@, v@);
    }
    r
}

impl Clone for AnalyzedTypeId {
    fn clone(&self) -> (r: Self)
        ensures
            r@ == self@,
    {
        clone_type(self)
    }
}

/// Whether two types are the same.
pub fn types_equal(a: &AnalyzedTypeId, b: &AnalyzedTypeId) -> (r: bool)
    ensures
        r == (a@ == b@),
    decreases a,
{
    match (a, b) {
        (AnalyzedTypeId::Unit, AnalyzedTypeId::Unit) => true,
        (AnalyzedTypeId::Bool, AnalyzedTypeId::Bool) => true,
        (AnalyzedTypeId::Char, AnalyzedTypeId::Char) => true,
        (AnalyzedTypeId::Integer(x), AnalyzedTypeId::Integer(y)) => *x == *y,
        (AnalyzedTypeId::Pointer(x), AnalyzedTypeId::Pointer(y)) => types_equal(x, y),
        (AnalyzedTypeId::StructType(x), AnalyzedTypeId::StructType(y)) => {
            x.id == y.id && type_lists_equal(&x.generic_args, &y.generic_args)
        },
        (AnalyzedTypeId::EnumType(x), AnalyzedTypeId::EnumType(y)) => *x == *y,
        (AnalyzedTypeId::FunctionType(rx, px), AnalyzedTypeId::FunctionType(ry, py)) => {
            types_equal(rx, ry) && type_lists_equal(px, py)
        },
        (AnalyzedTypeId::GenericType(x), AnalyzedTypeId::GenericType(y)) => *x == *y,
        _ => false,
    }
}

/// Whether two sequences of types are the same.
pub fn type_lists_equal(a: &Vec<AnalyzedTypeId>, b: &Vec<AnalyzedTypeId>) -> (r: bool)
    ensures
        r == (views_of(a@) == views_of(b@)),
    decreases a,
{
    proof {
        lemma_views_of(a@);
        lemma_views_of(b@);
    }
    if a.len() != b.len() {
        return false;
    }
    let mut i: usize = 0;
    while i < a.len()
        invariant
            i <= a@.len(),
            a@.len() == b@.len(),
            forall|j: int| 0 <= j < i ==> #[trigger] a@[j]@ == b@[j]@,
        decreases a@.len() - i,
    {
        if !types_equal(&a[i], &b[i]) {
            proof {
                lemma_views_of(a@);
                lemma_views_of(b@);
                assert(views_of(a@)[i as int] != views_of(b@)[i as int]);
            }
            return false;
        }
        i += 1;
    }
    proof {
        lemma_views_of_ext(a@, b@);
    }
    true
}

/// A generic parameter: its name in the source and its identifier.
#[derive(Debug)]
pub struct GenericParam {
    pub name: String,
    pub id: GenericId,
}

/// The generic parameters of a function or struct, in declaration order.
#[derive(Debug)]
pub struct GenericParams {
    pub params: Vec<GenericParam>,
}

/// The position of the first occurrence of `x` in `s`, if any.
pub open spec fn index_of(s: Seq<u64>, x: u64) -> Option<int> {
    if exists|i: int| 0 <= i < s.len() && s[i] == x {
        Some(
            choose|i: int|
                0 <= i < s.len() && s[i] == x && forall|j: int| 0 <= j < i ==> s[j] != x,
        )
    } else {
        None
    }
}

/// `i` is the position of the first occurrence of `x` in `s`.
pub proof fn lemma_index_of_first(s: Seq<u64>, x: u64, i: int)
    requires
        0 <= i < s.len(),
        s[i] == x,
        forall|j: int| 0 <= j < i ==> s[j] != x,
    ensures
        index_of(s, x) == Some(i),
{
    let k = choose|k: int| 0 <= k < s.len() && s[k] == x && forall|j: int| 0 <= j < k ==> s[j] != x;
    assert(0 <= k < s.len() && s[k] == x && forall|j: int| 0 <= j < k ==> s[j] != x);
    if k < i {
        assert(s[k] != x);
    }
    if i < k {
        assert(s[i] != x);
    }
}

impl GenericParams {
    /// The identifiers of the parameters, in declaration order.
    pub open spec fn ids(&self) -> Seq<GenericId> {
        Seq::new(self.params@.len(), |i: int| self.params@[i].id)
    }

    /// Position of a parameter among the generic parameters.
    pub fn position(&self, id: &GenericId) -> (r: Option<usize>)
        ensures
            match r {
                Some(i) => index_of(self.ids(), *id) == Some(i as int) && i < self.params@.len(),
                None => index_of(self.ids(), *id) is None,
            },
    {
        let mut i: usize = 0;
        while i < self.params.len()
            invariant
                i <= self.params@.len(),
                forall|j: int| 0 <= j < i ==> self.ids()[j] != *id,
            decreases self.params@.len() - i,
        {
            if self.params[i].id == *id {
                proof {
                    lemma_index_of_first(self.ids(), *id, i as int);
                }
                return Some(i);
            }
            i += 1;
        }
        None
    }

    /// The argument bound to the generic parameter `id`, if `id` is one of these
    /// parameters and an argument is given for its position.
    pub fn resolve(&self, id: &GenericId, generic_args: &Vec<AnalyzedTypeId>) -> (r: Option<
        AnalyzedTypeId,
    >)
        ensures
            match spec_resolve_param(self.ids(), *id, views_of(generic_args@)) {
                Some(t) => r is Some && r.unwrap()@ == t,
                None => r is None,
            },
    {
        proof {
            lemma_views_of(generic_args@);
        }
        match self.position(id) {
            Some(i) => {
                if i < generic_args.len() {
                    Some(clone_type(&generic_args[i]))
                } else {
                    None
                }
            },
            None => None,
        }
    }
}

/// The argument bound to generic parameter `id` among parameters `ids`.
pub open spec fn spec_resolve_param(ids: Seq<GenericId>, id: GenericId, args: Seq<TypeView>) -> Option<
    TypeView,
> {
    match index_of(ids, id) {
        Some(i) => if i < args.len() {
            Some(args[i])
        } else {
            None
        },
        None => None,
    }
}

/// `t` with every generic parameter replaced by its argument.
pub open spec fn spec_resolve_generic_type(
    t: TypeView,
    ids: Seq<GenericId>,
    args: Seq<TypeView>,
) -> TypeView
    decreases t,
{
    match t {
        TypeView::GenericType(g) => match spec_resolve_param(ids, g, args) {
            Some(a) => a,
            None => t,
        },
        TypeView::Pointer(inner) => TypeView::Pointer(
            Box::new(spec_resolve_generic_type(*inner, ids, args)),
        ),
        TypeView::StructType(id, gs) => TypeView::StructType(id, spec_resolve_all(gs, ids, args)),
        TypeView::FunctionType(ret, ps) => TypeView::FunctionType(
            Box::new(spec_resolve_generic_type(*ret, ids, args)),
            spec_resolve_all(ps, ids, args),
        ),
        _ => t,
    }
}

/// Generic replacement applied to each type of a sequence.
pub open spec fn spec_resolve_all(s: Seq<TypeView>, ids: Seq<GenericId>, args: Seq<TypeView>) -> Seq<
    TypeView,
>
    decreases s,
{
    if s.len() == 0 {
        Seq::empty()
    } else {
        seq![spec_resolve_generic_type(s[0], ids, args)] + spec_resolve_all(
            s.subrange(1, s.len() as int),
            ids,
            args,
        )
    }
}

/// Every generic parameter that occurs in `t` has an argument.
pub open spec fn generics_resolvable(t: TypeView, ids: Seq<GenericId>, args: Seq<TypeView>) -> bool
    decreases t,
{
    match t {
        TypeView::GenericType(g) => spec_resolve_param(ids, g, args) is Some,
        TypeView::Pointer(inner) => generics_resolvable(*inner, ids, args),
        TypeView::StructType(_, gs) => all_generics_resolvable(gs, ids, args),
        TypeView::FunctionType(ret, ps) => generics_resolvable(*ret, ids, args)
            && all_generics_resolvable(ps, ids, args),
        _ => true,
    }
}

/// Every generic parameter that occurs in the types of `s` has an argument.
pub open spec fn all_generics_resolvable(
    s: Seq<TypeView>,
    ids: Seq<GenericId>,
    args: Seq<TypeView>,
) -> bool
    decreases s,
{
    if s.len() == 0 {
        true
    } else {
        generics_resolvable(s[0], ids, args) && all_generics_resolvable(
            s.subrange(1, s.len() as int),
            ids,
            args,
        )
    }
}

pub proof fn lemma_resolve_all(s: Seq<TypeView>, ids: Seq<GenericId>, args: Seq<TypeView>)
    ensures
        spec_resolve_all(s, ids, args).len() == s.len(),
        forall|i: int|
            0 <= i < s.len() ==> #[trigger] spec_resolve_all(s, ids, args)[i]
                == spec_resolve_generic_type(s[i], ids, args),
        all_generics_resolvable(s, ids, args) <==> forall|i: int|
            0 <= i < s.len() ==> #[trigger] generics_resolvable(s[i], ids, args),
    decreases s.len(),
{
    if s.len() > 0 {
        let rest = s.subrange(1, s.len() as int);
        lemma_resolve_all(rest, ids, args);
        assert forall|i: int| 0 <= i < s.len() implies #[trigger] spec_resolve_all(s, ids, args)[i]
            == spec_resolve_generic_type(s[i], ids, args) by {
            if i > 0 {
                assert(rest[i - 1] == s[i]);
            }
        }
        if forall|i: int| 0 <= i < s.len() ==> #[trigger] generics_resolvable(s[i], ids, args) {
            assert forall|i: int| 0 <= i < rest.len() implies #[trigger] generics_resolvable(
                rest[i],
                ids,
                args,
            ) by {
                assert(rest[i] == s[i + 1]);
            }
            assert(generics_resolvable(s[0], ids, args));
            assert(all_generics_resolvable(rest, ids, args));
            assert(all_generics_resolvable(s, ids, args));
        }
        if all_generics_resolvable(s, ids, args) {
            assert forall|i: int| 0 <= i < s.len() implies #[trigger] generics_resolvable(
                s[i],
                ids,
                args,
            ) by {
                if i > 0 {
                    assert(rest[i - 1] == s[i]);
                }
            }
        }
    }
}

/// `ty` with every generic parameter replaced by the argument that `generic_args` binds
/// to it through `generic_params`.
pub fn resolve_generic_type(
    ty: &AnalyzedTypeId,
    generic_params: &GenericParams,
    generic_args: &Vec<AnalyzedTypeId>,
) -> (r: AnalyzedTypeId)
    requires
        generics_resolvable(ty@, generic_params.ids(), views_of(generic_args@)),
    ensures
        r@ == spec_resolve_generic_type(ty@, generic_params.ids(), views_of(generic_args@)),
    decreases ty,
{
    match ty {
        AnalyzedTypeId::GenericType(generic_id) => {
            generic_params.resolve(generic_id, generic_args).unwrap()
        },
        AnalyzedTypeId::Pointer(inner) => AnalyzedTypeId::Pointer(
            Box::new(resolve_generic_type(inner, generic_params, generic_args)),
        ),
        AnalyzedTypeId::StructType(struct_ref) => {
            let resolved_generic_args = resolve_generic_types(
                &struct_ref.generic_args,
                generic_params,
                generic_args,
            );
            AnalyzedTypeId::StructType(
                StructRef { id: struct_ref.id, generic_args: resolved_generic_args },
            )
        },
        AnalyzedTypeId::FunctionType(return_type, params) => {
            let resolved_params = resolve_generic_types(params, generic_params, generic_args);
            AnalyzedTypeId::FunctionType(
                Box::new(resolve_generic_type(return_type, generic_params, generic_args)),
                resolved_params,
            )
        },
        _ => clone_type(ty),
    }
}

fn resolve_generic_types(
    tys: &Vec<AnalyzedTypeId>,
    generic_params: &GenericParams,
    generic_args: &Vec<AnalyzedTypeId>,
) -> (r: Vec<AnalyzedTypeId>)
    requires
        all_generics_resolvable(views_of(tys@), generic_params.ids(), views_of(generic_args@)),
    ensures
        views_of(r@) == spec_resolve_all(
            views_of(tys@),
            generic_params.ids(),
            views_of(generic_args@),
        ),
    decreases tys,
{
    let ghost ids = generic_params.ids();
    let ghost args = views_of(generic_args@);
    proof {
        lemma_views_of(tys@);
        lemma_resolve_all(views_of(tys@), ids, args);
    }
    proof {
        assert forall|j: int| 0 <= j < tys@.len() implies #[trigger] generics_resolvable(
            tys@[j]@,
            ids,
            args,
        ) by {
            assert(generics_resolvable(views_of(tys@)[j], ids, args));
        }
    }
    let mut r: Vec<AnalyzedTypeId> = Vec::new();
    let mut i: usize = 0;
    while i < tys.len()
        invariant
            i <= tys@.len(),
            ids == generic_params.ids(),
            args == views_of(generic_args@),
            views_of(tys@).len() == tys@.len(),
            forall|j: int| 0 <= j < tys@.len() ==> #[trigger] views_of(tys@)[j] == tys@[j]@,
            forall|j: int|
                0 <= j < tys@.len() ==> #[trigger] generics_resolvable(tys@[j]@, ids, args),
            r@.len() == i,
            forall|j: int|
                0 <= j < i ==> #[trigger] r@[j]@ == spec_resolve_generic_type(tys@[j]@, ids, args),
        decreases tys@.len() - i,
    {
        assert(generics_resolvable(tys@[i as int]@, ids, args));
        r.push(resolve_generic_type(&tys[i], generic_params, generic_args));
        i += 1;
    }
    proof {
        lemma_views_of(r@);
        assert(views_of(r@) =~= spec_resolve_all(views_of(tys@), ids, args));
    }
    r
}

/// `ty` with every generic parameter that `generic_args` binds through
/// `generic_params` replaced by its argument; other generic parameters stay.
pub fn substitute_generic_type(
    ty: &AnalyzedTypeId,
    generic_params: &GenericParams,
    generic_args: &Vec<AnalyzedTypeId>,
) -> (r: AnalyzedTypeId)
    ensures
        r@ == spec_resolve_generic_type(ty@, generic_params.ids(), views_of(generic_args@)),
    decreases ty,
{
    match ty {
        AnalyzedTypeId::GenericType(generic_id) => match generic_params.resolve(
            generic_id,
            generic_args,
        ) {
            Some(t) => t,
            None => clone_type(ty),
        },
        AnalyzedTypeId::Pointer(inner) => AnalyzedTypeId::Pointer(
            Box::new(substitute_generic_type(inner, generic_params, generic_args)),
        ),
        AnalyzedTypeId::StructType(struct_ref) => {
            let resolved = substitute_generic_types(&struct_ref.generic_args, generic_params, generic_args);
            AnalyzedTypeId::StructType(StructRef { id: struct_ref.id, generic_args: resolved })
        },
        AnalyzedTypeId::FunctionType(return_type, params) => {
            let resolved_params = substitute_generic_types(params, generic_params, generic_args);
            AnalyzedTypeId::FunctionType(
                Box::new(substitute_generic_type(return_type, generic_params, generic_args)),
                resolved_params,
            )
        },
        _ => clone_type(ty),
    }
}

/// Generic substitution applied to each type of a sequence.
pub fn substitute_generic_types(
    tys: &Vec<AnalyzedTypeId>,
    generic_params: &GenericParams,
    generic_args: &Vec<AnalyzedTypeId>,
) -> (r: Vec<AnalyzedTypeId>)
    ensures
        views_of(r@) == spec_resolve_all(
            views_of(tys@),
            generic_params.ids(),
            views_of(generic_args@),
        ),
    decreases tys,
{
    let ghost ids = generic_params.ids();
    let ghost args = views_of(generic_args@);
    proof {
        lemma_views_of(tys@);
        lemma_resolve_all(views_of(tys@), ids, args);
    }
    let mut r: Vec<AnalyzedTypeId> = Vec::new();
    let mut i: usize = 0;
    while i < tys.len()
        invariant
            i <= tys@.len(),
            ids == generic_params.ids(),
            args == views_of(generic_args@),
            r@.len() == i,
            forall|j: int|
                0 <= j < i ==> #[trigger] r@[j]@ == spec_resolve_generic_type(tys@[j]@, ids, args),
        decreases tys@.len() - i,
    {
        r.push(substitute_generic_type(&tys[i], generic_params, generic_args));
        i += 1;
    }
    proof {
        lemma_views_of(r@);
        assert(views_of(r@) =~= spec_resolve_all(views_of(tys@), ids, args));
    }
    r
}

/// Whether generics can be resolved depends on the arguments only through their number.
pub proof fn lemma_resolvable_by_count(
    t: TypeView,
    ids: Seq<GenericId>,
    a: Seq<TypeView>,
    b: Seq<TypeView>,
)
    requires
        a.len() == b.len(),
    ensures
        generics_resolvable(t, ids, a) == generics_resolvable(t, ids, b),
    decreases t, 0nat,
{
    match t {
        TypeView::Pointer(inner) => lemma_resolvable_by_count(*inner, ids, a, b),
        TypeView::StructType(_, gs) => lemma_all_resolvable_by_count(gs, ids, a, b),
        TypeView::FunctionType(ret, ps) => {
            lemma_resolvable_by_count(*ret, ids, a, b);
            lemma_all_resolvable_by_count(ps, ids, a, b);
        },
        _ => {},
    }
}

pub proof fn lemma_all_resolvable_by_count(
    s: Seq<TypeView>,
    ids: Seq<GenericId>,
    a: Seq<TypeView>,
    b: Seq<TypeView>,
)
    requires
        a.len() == b.len(),
    ensures
        all_generics_resolvable(s, ids, a) == all_generics_resolvable(s, ids, b),
    decreases s, 1nat,
{
    if s.len() > 0 {
        lemma_resolvable_by_count(s[0], ids, a, b);
        lemma_all_resolvable_by_count(s.subrange(1, s.len() as int), ids, a, b);
    }
}

/// Result of matching an argument type against a parameter type: whether it matched,
/// and the generic bindings afterwards.
pub open spec fn spec_check_matches(
    arg: TypeView,
    param: TypeView,
    map: Map<GenericId, TypeView>,
    location: Location,
) -> (Option<ErrorView>, Map<GenericId, TypeView>)
    decreases arg, 0nat,
{
    match (arg, param) {
        (ty, TypeView::GenericType(g)) => {
            let new_map = map.insert(g, ty);
            if map.contains_key(g) && map[g] != ty {
                (Some(error_with(AnalyzerErrorKind::AmbiguousGenericArgument, location, seq![nat_text(g as nat)])), new_map)
            } else {
                (None, new_map)
            }
        },
        (TypeView::Pointer(a), TypeView::Pointer(p)) => spec_check_matches(*a, *p, map, location),
        (TypeView::StructType(_, gs), TypeView::StructType(_, ps)) => spec_check_matches_pairs(
            gs,
            ps,
            if gs.len() < ps.len() {
                gs.len()
            } else {
                ps.len()
            },
            map,
            location,
        ),
        (TypeView::FunctionType(ra, pa), TypeView::FunctionType(rp, pp)) => {
            let n = if pa.len() < pp.len() {
                pa.len()
            } else {
                pp.len()
            };
            let (res, m1) = spec_check_matches_pairs(pa, pp, n, map, location);
            if res is Some {
                (res, m1)
            } else {
                spec_check_matches(*ra, *rp, m1, location)
            }
        },
        (ty, ty2) => if ty == ty2 {
            (None, map)
        } else {
            (Some(error_with(AnalyzerErrorKind::TypeMismatch, location, seq![type_text(ty), type_text(ty2)])), map)
        },
    }
}

/// Matching the first `n` argument types against the first `n` parameter types, in
/// order, stopping at the first failure.
pub open spec fn spec_check_matches_pairs(
    args: Seq<TypeView>,
    params: Seq<TypeView>,
    n: nat,
    map: Map<GenericId, TypeView>,
    location: Location,
) -> (Option<ErrorView>, Map<GenericId, TypeView>)
    decreases args, n,
{
    if n == 0 || n > args.len() || n > params.len() {
        (None, map)
    } else {
        let (res, m1) = spec_check_matches_pairs(args, params, (n - 1) as nat, map, location);
        if res is Some {
            (res, m1)
        } else {
            spec_check_matches(args[n - 1], params[n - 1], m1, location)
        }
    }
}

/// The error of a result that carries nothing on success.
pub open spec fn outcome(r: Result<(), AnalyzerError>) -> Option<ErrorView> {
    match r {
        Ok(_) => None,
        Err(e) => Some(e@),
    }
}

/// The model of a map from generic parameters to types.
pub open spec fn generic_map_view(m: Map<GenericId, AnalyzedTypeId>) -> Map<GenericId, TypeView> {
    m.map_values(|t: AnalyzedTypeId| t@)
}

/// Matches the type of an argument against the type of a parameter, binding the
/// parameter's generic parameters in `generic_arg_map`: a generic parameter matches any
/// type, but is an ambiguity error when already bound to another type; pointers,
/// struct types and function types match component by component (pairing the
/// components up to the shorter list); any other pair must be equal.
pub fn check_matches_try_find_generic_args(
    arg_ty: &AnalyzedTypeId,
    param_ty: &AnalyzedTypeId,
    generic_arg_map: &mut HashMap<GenericId, AnalyzedTypeId>,
    location: &Location,
) -> (r: Result<(), AnalyzerError>)
    ensures
        (outcome(r), generic_map_view(final(generic_arg_map)@)) == spec_check_matches(
            arg_ty@,
            param_ty@,
            generic_map_view(old(generic_arg_map)@),
            *location,
        ),
    decreases arg_ty, 0nat,
{
    let ghost m0 = generic_map_view(generic_arg_map@);
    match (arg_ty, param_ty) {
        (ty, AnalyzedTypeId::GenericType(generic_id)) => {
            let previous = generic_arg_map.insert(*generic_id, clone_type(ty));
            proof {
                assert(generic_map_view(generic_arg_map@) =~= m0.insert(*generic_id, ty@));
            }
            match previous {
                Some(x) => {
                    if !types_equal(&x, ty) {
                        return Err(make_error1(AnalyzerErrorKind::AmbiguousGenericArgument, location, u64_string(*generic_id)));
                    }
                    Ok(())
                },
                None => Ok(()),
            }
        },
        (AnalyzedTypeId::Pointer(inner), AnalyzedTypeId::Pointer(inner2)) => {
            check_matches_try_find_generic_args(inner, inner2, generic_arg_map, location)
        },
        (AnalyzedTypeId::StructType(struct_ref), AnalyzedTypeId::StructType(struct_ref2)) => {
            proof {
                lemma_views_of(struct_ref.generic_args@);
                lemma_views_of(struct_ref2.generic_args@);
            }
            let n = if struct_ref.generic_args.len() < struct_ref2.generic_args.len() {
                struct_ref.generic_args.len()
            } else {
                struct_ref2.generic_args.len()
            };
            check_matches_pairs(
                &struct_ref.generic_args,
                &struct_ref2.generic_args,
                n,
                generic_arg_map,
                location,
            )
        },
        (
            AnalyzedTypeId::FunctionType(return_type, params),
            AnalyzedTypeId::FunctionType(return_type2, params2),
        ) => {
            proof {
                lemma_views_of(params@);
                lemma_views_of(params2@);
            }
            let n = if params.len() < params2.len() {
                params.len()
            } else {
                params2.len()
            };
            let res = check_matches_pairs(params, params2, n, generic_arg_map, location);
            if res.is_err() {
                return res;
            }
            check_matches_try_find_generic_args(return_type, return_type2, generic_arg_map, location)
        },
        (ty, ty2) => {
            if types_equal(ty, ty2) {
                Ok(())
            } else {
                Err(make_error2(AnalyzerErrorKind::TypeMismatch, location, type_string(ty), type_string(ty2)))
            }
        },
    }
}

pub fn check_matches_pairs(
    args: &Vec<AnalyzedTypeId>,
    params: &Vec<AnalyzedTypeId>,
    n: usize,
    generic_arg_map: &mut HashMap<GenericId, AnalyzedTypeId>,
    location: &Location,
) -> (r: Result<(), AnalyzerError>)
    requires
        n <= args@.len(),
        n <= params@.len(),
    ensures
        (outcome(r), generic_map_view(final(generic_arg_map)@)) == spec_check_matches_pairs(
            views_of(args@),
            views_of(params@),
            n as nat,
            generic_map_view(old(generic_arg_map)@),
            *location,
        ),
    decreases args, n,
{
    proof {
        lemma_views_of(args@);
        lemma_views_of(params@);
    }
    let ghost m0 = generic_map_view(generic_arg_map@);
    let mut i: usize = 0;
    while i < n
        invariant
            i <= n <= args@.len(),
            n <= params@.len(),
            m0 == generic_map_view(old(generic_arg_map)@),
            views_of(args@).len() == args@.len(),
            views_of(params@).len() == params@.len(),
            forall|j: int| 0 <= j < args@.len() ==> #[trigger] views_of(args@)[j] == args@[j]@,
            forall|j: int| 0 <= j < params@.len() ==> #[trigger] views_of(params@)[j] == params@[j]@,
            spec_check_matches_pairs(views_of(args@), views_of(params@), i as nat, m0, *location)
                == (None::<ErrorView>, generic_map_view(generic_arg_map@)),
        decreases n - i,
    {
        let ghost before = generic_map_view(generic_arg_map@);
        let res = check_matches_try_find_generic_args(&args[i], &params[i], generic_arg_map, location);
        proof {
            assert(views_of(args@)[i as int] == args@[i as int]@);
            assert(views_of(params@)[i as int] == params@[i as int]@);
            assert(spec_check_matches_pairs(views_of(args@), views_of(params@), (i + 1) as nat, m0, *location)
                == spec_check_matches(views_of(args@)[i as int], views_of(params@)[i as int], before, *location));
        }
        if res.is_err() {
            proof {
                assert(outcome(res) is Some);
                assert((outcome(res), generic_map_view(generic_arg_map@)) == spec_check_matches(args@[i as int]@, params@[i as int]@, before, *location));
                assert(spec_check_matches_pairs(views_of(args@), views_of(params@), (i + 1) as nat, m0, *location).0 is Some);
                lemma_pairs_error_stays(views_of(args@), views_of(params@), (i + 1) as nat, n as nat, m0, *location);
            }
            return res;
        }
        i += 1;
    }
    Ok(())
}

/// Once matching a prefix of the pairs fails, matching a longer prefix fails the same way.
pub proof fn lemma_pairs_error_stays(
    args: Seq<TypeView>,
    params: Seq<TypeView>,
    k: nat,
    n: nat,
    map: Map<GenericId, TypeView>,
    location: Location,
)
    requires
        0 < k <= n <= args.len(),
        n <= params.len(),
        spec_check_matches_pairs(args, params, k, map, location).0 is Some,
    ensures
        spec_check_matches_pairs(args, params, n, map, location) == spec_check_matches_pairs(
            args,
            params,
            k,
            map,
            location,
        ),
    decreases n - k,
{
    if k < n {
        lemma_pairs_error_stays(args, params, k, (n - 1) as nat, map, location);
    }
}

} // verus!
