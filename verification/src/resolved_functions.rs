use vstd::prelude::*;
use std::collections::HashMap;
use crate::analyzed_type::{
    check_matches_pairs, clone_type, clone_types, generic_map_view, generics_resolvable,
    lemma_views_of, spec_check_matches_pairs, spec_resolve_generic_type, substitute_generic_type,
    views_of, AnalyzedTypeId, GenericId, GenericParams, TypeView,
};
use crate::analyzer_error::{AnalyzerError, AnalyzerErrorKind, ErrorView, error_at, make_error};
use crate::location::Location;
use crate::parsed_expression::ScopeId;
use crate::search::{first_index, lemma_first_index_found, lemma_first_index_none};

verus! {

broadcast use vstd::std_specs::hash::group_hash_axioms;

/// Identifier of a function.
pub type FunctionId = u64;

/// A function together with the generic arguments it is instantiated with and the
/// resulting parameter types.
#[derive(Debug)]
pub struct FunctionRef {
    pub id: FunctionId,
    pub generic_args: Vec<AnalyzedTypeId>,
    pub arg_types: Vec<AnalyzedTypeId>,
}

/// Model of a function reference.
pub struct FunctionRefView {
    pub id: FunctionId,
    pub generic_args: Seq<TypeView>,
    pub arg_types: Seq<TypeView>,
}

impl View for FunctionRef {
    type V = FunctionRefView;

    open spec fn view(&self) -> FunctionRefView {
        FunctionRefView {
            id: self.id,
            generic_args: views_of(self.generic_args@),
            arg_types: views_of(self.arg_types@),
        }
    }
}

/// The signature of a function.
#[derive(Debug)]
pub struct ResolvedFunctionHeader {
    pub id: FunctionId,
    pub name: String,
    pub generic_params: GenericParams,
    pub parameter_types: Vec<(String, AnalyzedTypeId)>,
    pub return_type: AnalyzedTypeId,
}

/// All functions of a program.
#[derive(Debug)]
pub struct ResolvedFunctions {
    pub headers: Vec<ResolvedFunctionHeader>,
}

impl ResolvedFunctionHeader {
    /// The parameter types, in order.
    pub open spec fn param_views(&self) -> Seq<TypeView> {
        Seq::new(self.parameter_types@.len(), |i: int| self.parameter_types@[i].1@)
    }

    /// The parameter types with the generic parameters replaced by `generic_args`.
    pub open spec fn instantiated_params(&self, generic_args: Seq<TypeView>) -> Seq<TypeView> {
        Seq::new(
            self.parameter_types@.len(),
            |i: int|
                spec_resolve_generic_type(
                    self.parameter_types@[i].1@,
                    self.generic_params.ids(),
                    generic_args,
                ),
        )
    }

    /// The return type only mentions the function's own generic parameters.
    pub open spec fn wf(&self) -> bool {
        generics_resolvable(
            self.return_type@,
            self.generic_params.ids(),
            self.generic_params.ids().map_values(|g: GenericId| TypeView::GenericType(g)),
        )
    }

    /// Whether matching `arg_types` against the parameter types binds every generic
    /// parameter without conflict, and the resulting bindings.
    #[verifier::opaque]
    pub open spec fn spec_guess(&self, arg_types: Seq<TypeView>, location: Location) -> (bool, Map<
        GenericId,
        TypeView,
    >) {
        let (err, m) = spec_check_matches_pairs(
            arg_types,
            self.param_views(),
            arg_types.len(),
            Map::empty(),
            location,
        );
        (
            self.parameter_types@.len() == arg_types.len() && err is None && forall|i: int|
                0 <= i < self.generic_params.ids().len() ==> m.contains_key(
                    #[trigger] self.generic_params.ids()[i],
                ),
            m,
        )
    }

    /// The generic arguments that a successful guess found, in parameter order.
    pub open spec fn spec_guessed_args(&self, arg_types: Seq<TypeView>, location: Location) -> Seq<
        TypeView,
    > {
        let m = self.spec_guess(arg_types, location).1;
        self.generic_params.ids().map_values(|g: GenericId| m[g])
    }
}

impl ResolvedFunctions {
    /// Headers have distinct identifiers and are well formed.
    pub open spec fn wf(&self) -> bool {
        &&& forall|i: int, j: int|
            0 <= i < j < self.headers@.len() ==> #[trigger] self.headers@[i].id
                != #[trigger] self.headers@[j].id
        &&& forall|i: int| 0 <= i < self.headers@.len() ==> #[trigger] self.headers@[i].wf()
    }

    /// Position of the header with identifier `id`.
    pub open spec fn header_index(&self, id: FunctionId) -> Option<int> {
        first_index(self.headers@, |h: ResolvedFunctionHeader| h.id == id)
    }

    pub open spec fn has_header(&self, id: FunctionId) -> bool {
        self.header_index(id) is Some
    }

    /// Every listed header can be looked up by its identifier.
    pub proof fn lemma_has_header(&self, i: int)
        requires
            0 <= i < self.headers@.len(),
        ensures
            self.has_header(self.headers@[i].id),
    {
        let id = self.headers@[i].id;
        let p = |h: ResolvedFunctionHeader| h.id == id;
        assert(p(self.headers@[i]));
        assert(exists|k: int| 0 <= k < self.headers@.len() && #[trigger] p(self.headers@[k]));
    }

    pub open spec fn spec_header(&self, id: FunctionId) -> ResolvedFunctionHeader {
        self.headers@[self.header_index(id).unwrap()]
    }

    /// The header of function `id`.
    pub fn get_header(&self, id: &FunctionId) -> (r: &ResolvedFunctionHeader)
        requires
            self.has_header(*id),
        ensures
            *r == self.spec_header(*id),
    {
        let ghost p = |h: ResolvedFunctionHeader| h.id == *id;
        let mut i: usize = 0;
        while i < self.headers.len()
            invariant
                i <= self.headers@.len(),
                p == (|h: ResolvedFunctionHeader| h.id == *id),
                self.has_header(*id),
                forall|j: int| 0 <= j < i ==> !#[trigger] p(self.headers@[j]),
            decreases self.headers@.len() - i,
        {
            if self.headers[i].id == *id {
                proof {
                    lemma_first_index_found(self.headers@, p, i as int);
                }
                return &self.headers[i];
            }
            i += 1;
        }
        proof {
            lemma_first_index_none(self.headers@, p);
        }
        assert(false);
        &self.headers[0]
    }

    /// The header of function `id`, if there is one.
    pub fn find_header(&self, id: &FunctionId) -> (r: Option<&ResolvedFunctionHeader>)
        ensures
            match r {
                Some(h) => self.has_header(*id) && *h == self.spec_header(*id),
                None => !self.has_header(*id),
            },
    {
        let ghost p = |h: ResolvedFunctionHeader| h.id == *id;
        let mut i: usize = 0;
        while i < self.headers.len()
            invariant
                i <= self.headers@.len(),
                p == (|h: ResolvedFunctionHeader| h.id == *id),
                forall|j: int| 0 <= j < i ==> !#[trigger] p(self.headers@[j]),
            decreases self.headers@.len() - i,
        {
            if self.headers[i].id == *id {
                proof {
                    lemma_first_index_found(self.headers@, p, i as int);
                }
                return Some(&self.headers[i]);
            }
            i += 1;
        }
        proof {
            lemma_first_index_none(self.headers@, p);
        }
        None
    }

    /// Position of the first function named `name` with `count` generic parameters.
    pub open spec fn index_by_name(&self, name: Seq<char>, count: nat) -> Option<int> {
        first_index(
            self.headers@,
            |h: ResolvedFunctionHeader| h.name@ == name && h.generic_params.params@.len() == count,
        )
    }

    /// Position of the first function named `name` whose parameters, instantiated with
    /// `generic_args`, are exactly `arg_types`.
    pub open spec fn index_by_signature(
        &self,
        name: Seq<char>,
        arg_types: Seq<TypeView>,
        generic_args: Seq<TypeView>,
    ) -> Option<int> {
        first_index(
            self.headers@,
            |h: ResolvedFunctionHeader|
                h.name@ == name && h.generic_params.params@.len() == generic_args.len()
                    && h.instantiated_params(generic_args) == arg_types,
        )
    }

    /// Position of the first function named `name` whose generic arguments can be
    /// inferred from `arg_types`.
    pub open spec fn index_by_guess(&self, name: Seq<char>, arg_types: Seq<TypeView>, location: Location) -> Option<int> {
        first_index(
            self.headers@,
            |h: ResolvedFunctionHeader| h.name@ == name && h.spec_guess(arg_types, location).0,
        )
    }

    /// The reference to function `h` instantiated with `generic_args`.
    pub open spec fn spec_ref(h: ResolvedFunctionHeader, generic_args: Seq<TypeView>) -> FunctionRefView {
        FunctionRefView {
            id: h.id,
            generic_args,
            arg_types: h.instantiated_params(generic_args),
        }
    }

    pub open spec fn spec_function_id_from_scope_id(
        &self,
        scope_id: ScopeId,
        generic_args: Seq<TypeView>,
        location: Location,
    ) -> Result<FunctionRefView, ErrorView> {
        match self.index_by_name(scope_id.item_id.item_name@, generic_args.len()) {
            Some(i) => Ok(Self::spec_ref(self.headers@[i], generic_args)),
            None => Err(error_at(AnalyzerErrorKind::FunctionNotFound, location)),
        }
    }

    pub open spec fn spec_map_function_id(
        &self,
        scope_id: ScopeId,
        arg_types: Seq<TypeView>,
        generic_args: Seq<TypeView>,
        location: Location,
    ) -> Result<FunctionRefView, ErrorView> {
        match self.index_by_signature(scope_id.item_id.item_name@, arg_types, generic_args) {
            Some(i) => Ok(Self::spec_ref(self.headers@[i], generic_args)),
            None => Err(error_at(AnalyzerErrorKind::FunctionNotFound, location)),
        }
    }

    pub open spec fn spec_map_function_id_guess_generics(
        &self,
        scope_id: ScopeId,
        arg_types: Seq<TypeView>,
        location: Location,
    ) -> Result<FunctionRefView, ErrorView> {
        match self.index_by_guess(scope_id.item_id.item_name@, arg_types, location) {
            Some(i) => Ok(
                Self::spec_ref(
                    self.headers@[i],
                    self.headers@[i].spec_guessed_args(arg_types, location),
                ),
            ),
            None => Err(error_at(AnalyzerErrorKind::FunctionNotFound, location)),
        }
    }

    /// The first function with the name of `scope_id` that takes as many generic
    /// parameters as `generic_args` gives, instantiated with them.
    #[verifier::loop_isolation(false)]
    pub fn function_id_from_scope_id(
        &self,
        scope_id: &ScopeId,
        generic_args: Vec<AnalyzedTypeId>,
        location: &Location,
    ) -> (r: Result<FunctionRef, AnalyzerError>)
        ensures
            match (r, self.spec_function_id_from_scope_id(*scope_id, views_of(generic_args@), *location)) {
                (Ok(f), Ok(s)) => f@ == s,
                (Err(e), Err(s)) => e@ == s,
                _ => false,
            },
            r is Ok ==> self.has_header(r->Ok_0.id),
    {
        let name = &scope_id.item_id.item_name;
        proof {
            lemma_views_of(generic_args@);
        }
        let ghost n = views_of(generic_args@).len();
        let ghost p = |h: ResolvedFunctionHeader| h.name@ == name@ && h.generic_params.params@.len() == n;
        let mut i: usize = 0;
        while i < self.headers.len()
            invariant
                i <= self.headers@.len(),
                n == generic_args@.len(),
                p == (|h: ResolvedFunctionHeader| h.name@ == name@ && h.generic_params.params@.len() == n),
                forall|j: int| 0 <= j < i ==> !#[trigger] p(self.headers@[j]),
            decreases self.headers@.len() - i,
        {
            let h = &self.headers[i];
            if h.name == *name && h.generic_params.params.len() == generic_args.len() {
                proof {
                    lemma_first_index_found(self.headers@, p, i as int);
                    assert(p =~= (|h: ResolvedFunctionHeader|
                        h.name@ == scope_id.item_id.item_name@ && h.generic_params.params@.len()
                            == views_of(generic_args@).len()));
                }
                let arg_types = instantiate_params(h, &generic_args);
                proof {
                    self.lemma_has_header(i as int);
                }
                return Ok(FunctionRef { id: h.id, generic_args, arg_types });
            }
            i += 1;
        }
        proof {
            lemma_first_index_none(self.headers@, p);
        }
        Err(make_error(AnalyzerErrorKind::FunctionNotFound, location))
    }

    /// The first function with the name of `scope_id` that takes as many generic
    /// parameters as `generic_args` gives and whose parameter types, instantiated with
    /// them, are exactly `arg_types`.
    #[verifier::loop_isolation(false)]
    pub fn map_function_id(
        &self,
        scope_id: &ScopeId,
        arg_types: Vec<AnalyzedTypeId>,
        generic_args: Vec<AnalyzedTypeId>,
        location: &Location,
    ) -> (r: Result<FunctionRef, AnalyzerError>)
        ensures
            match (r, self.spec_map_function_id(*scope_id, views_of(arg_types@), views_of(generic_args@), *location)) {
                (Ok(f), Ok(s)) => f@ == s,
                (Err(e), Err(s)) => e@ == s,
                _ => false,
            },
            r is Ok ==> self.has_header(r->Ok_0.id),
    {
        let name = &scope_id.item_id.item_name;
        proof {
            lemma_views_of(generic_args@);
        }
        let ghost ga = views_of(generic_args@);
        let ghost at = views_of(arg_types@);
        let ghost p = |h: ResolvedFunctionHeader|
            h.name@ == name@ && h.generic_params.params@.len() == ga.len()
                && h.instantiated_params(ga) == at;
        let mut i: usize = 0;
        while i < self.headers.len()
            invariant
                i <= self.headers@.len(),
                ga == views_of(generic_args@),
                at == views_of(arg_types@),
                ga.len() == generic_args@.len(),
                p == (|h: ResolvedFunctionHeader|
                    h.name@ == name@ && h.generic_params.params@.len() == ga.len()
                        && h.instantiated_params(ga) == at),
                forall|j: int| 0 <= j < i ==> !#[trigger] p(self.headers@[j]),
            decreases self.headers@.len() - i,
        {
            let h = &self.headers[i];
            if h.name == *name && h.generic_params.params.len() == generic_args.len() {
                let instantiated = instantiate_params(h, &generic_args);
                if crate::analyzed_type::type_lists_equal(&instantiated, &arg_types) {
                    proof {
                        lemma_first_index_found(self.headers@, p, i as int);
                        assert(p =~= (|h: ResolvedFunctionHeader|
                            h.name@ == scope_id.item_id.item_name@ && h.generic_params.params@.len()
                                == views_of(generic_args@).len() && h.instantiated_params(
                                views_of(generic_args@),
                            ) == views_of(arg_types@)));
                    }
                    proof {
                        self.lemma_has_header(i as int);
                    }
                    return Ok(FunctionRef { id: h.id, generic_args, arg_types: instantiated });
                }
            }
            i += 1;
        }
        proof {
            lemma_first_index_none(self.headers@, p);
        }
        Err(make_error(AnalyzerErrorKind::FunctionNotFound, location))
    }

    /// The first function with the name of `scope_id` whose generic arguments can be
    /// inferred by matching `arg_types` against its parameter types, instantiated with
    /// the inferred arguments.
    #[verifier::loop_isolation(false)]
    pub fn map_function_id_guess_generics(
        &self,
        scope_id: &ScopeId,
        arg_types: Vec<AnalyzedTypeId>,
        location: &Location,
    ) -> (r: Result<FunctionRef, AnalyzerError>)
        ensures
            match (r, self.spec_map_function_id_guess_generics(*scope_id, views_of(arg_types@), *location)) {
                (Ok(f), Ok(s)) => f@ == s,
                (Err(e), Err(s)) => e@ == s,
                _ => false,
            },
            r is Ok ==> self.has_header(r->Ok_0.id),
    {
        let name = &scope_id.item_id.item_name;
        let ghost at = views_of(arg_types@);
        let ghost p = |h: ResolvedFunctionHeader| h.name@ == name@ && h.spec_guess(at, *location).0;
        let mut i: usize = 0;
        while i < self.headers.len()
            invariant
                i <= self.headers@.len(),
                at == views_of(arg_types@),
                p == (|h: ResolvedFunctionHeader| h.name@ == name@ && h.spec_guess(at, *location).0),
                forall|j: int| 0 <= j < i ==> !#[trigger] p(self.headers@[j]),
            decreases self.headers@.len() - i,
        {
            let h = &self.headers[i];
            if h.name == *name {
                match guess_generic_args(h, &arg_types, location) {
                    Some(generic_args) => {
                        proof {
                            lemma_first_index_found(self.headers@, p, i as int);
                            assert(p =~= (|h: ResolvedFunctionHeader|
                                h.name@ == scope_id.item_id.item_name@ && h.spec_guess(
                                    views_of(arg_types@),
                                    *location,
                                ).0));
                        }
                        let instantiated = instantiate_params(h, &generic_args);
                        proof {
                            self.lemma_has_header(i as int);
                        }
                        return Ok(FunctionRef { id: h.id, generic_args, arg_types: instantiated });
                    },
                    None => {},
                }
            }
            i += 1;
        }
        proof {
            lemma_first_index_none(self.headers@, p);
        }
        Err(make_error(AnalyzerErrorKind::FunctionNotFound, location))
    }
}

/// The parameter types of `h` with its generic parameters replaced by `generic_args`.
fn instantiate_params(h: &ResolvedFunctionHeader, generic_args: &Vec<AnalyzedTypeId>) -> (r: Vec<
    AnalyzedTypeId,
>)
    ensures
        views_of(r@) == h.instantiated_params(views_of(generic_args@)),
{
    let mut r: Vec<AnalyzedTypeId> = Vec::new();
    let mut i: usize = 0;
    while i < h.parameter_types.len()
        invariant
            i <= h.parameter_types@.len(),
            r@.len() == i,
            forall|j: int|
                0 <= j < i ==> #[trigger] r@[j]@ == h.instantiated_params(views_of(generic_args@))[j],
        decreases h.parameter_types@.len() - i,
    {
        r.push(substitute_generic_type(&h.parameter_types[i].1, &h.generic_params, generic_args));
        i += 1;
    }
    proof {
        lemma_views_of(r@);
        assert(views_of(r@) =~= h.instantiated_params(views_of(generic_args@)));
    }
    r
}

/// The parameter types of `h`, in order.
fn param_types(h: &ResolvedFunctionHeader) -> (r: Vec<AnalyzedTypeId>)
    ensures
        views_of(r@) == h.param_views(),
{
    let mut r: Vec<AnalyzedTypeId> = Vec::new();
    let mut i: usize = 0;
    while i < h.parameter_types.len()
        invariant
            i <= h.parameter_types@.len(),
            r@.len() == i,
            forall|j: int| 0 <= j < i ==> #[trigger] r@[j]@ == h.param_views()[j],
        decreases h.parameter_types@.len() - i,
    {
        r.push(clone_type(&h.parameter_types[i].1));
        i += 1;
    }
    proof {
        lemma_views_of(r@);
        assert(views_of(r@) =~= h.param_views());
    }
    r
}

/// The generic arguments of `h` inferred from `arg_types`, if matching binds all of
/// them without conflict.
fn guess_generic_args(h: &ResolvedFunctionHeader, arg_types: &Vec<AnalyzedTypeId>, location: &Location) -> (r:
    Option<Vec<AnalyzedTypeId>>)
    ensures
        r is Some == h.spec_guess(views_of(arg_types@), *location).0,
        r is Some ==> views_of(r.unwrap()@) == h.spec_guessed_args(views_of(arg_types@), *location),
{
    proof {
        lemma_views_of(arg_types@);
        reveal(ResolvedFunctionHeader::spec_guess);
    }
    if h.parameter_types.len() != arg_types.len() {
        return None;
    }
    let params = param_types(h);
    proof {
        lemma_views_of(params@);
    }
    let mut map: HashMap<GenericId, AnalyzedTypeId> = HashMap::new();
    proof {
        assert(generic_map_view(map@) =~= Map::<GenericId, TypeView>::empty());
    }
    let res = check_matches_pairs(arg_types, &params, arg_types.len(), &mut map, location);
    if res.is_err() {
        return None;
    }
    let ghost m = generic_map_view(map@);
    let ghost ids = h.generic_params.ids();
    let mut result: Vec<AnalyzedTypeId> = Vec::new();
    let mut i: usize = 0;
    while i < h.generic_params.params.len()
        invariant
            i <= h.generic_params.params@.len(),
            ids == h.generic_params.ids(),
            m == generic_map_view(map@),
            m == h.spec_guess(views_of(arg_types@), *location).1,
            h.parameter_types@.len() == arg_types@.len(),
            h.spec_guess(views_of(arg_types@), *location).0 <==> forall|k: int|
                0 <= k < ids.len() ==> m.contains_key(#[trigger] ids[k]),
            result@.len() == i,
            forall|k: int| 0 <= k < i ==> m.contains_key(#[trigger] ids[k]),
            forall|k: int| 0 <= k < i ==> #[trigger] result@[k]@ == m[ids[k]],
        decreases h.generic_params.params@.len() - i,
    {
        let g = h.generic_params.params[i].id;
        match map.get(&g) {
            Some(t) => {
                result.push(clone_type(t));
            },
            None => {
                assert(!m.contains_key(ids[i as int]));
                return None;
            },
        }
        i += 1;
    }
    proof {
        lemma_views_of(result@);
        assert(views_of(result@) =~= h.spec_guessed_args(views_of(arg_types@), *location));
    }
    Some(result)
}

} // verus!
