use vstd::prelude::*;
use crate::analyzed_type::{
    clone_type, clone_types, lemma_views_of, spec_resolve_generic_type, substitute_generic_type,
    views_of, AnalyzedTypeId, EnumId, GenericParam, GenericParams, StructId, StructRef, TypeView,
};
use crate::location::FileId;
use crate::parsed_expression::{ItemId, ParsedTypeValue};
use crate::search::{first_index, lemma_first_index_found, lemma_first_index_none};

verus! {

/// A struct declaration: its generic parameters and its fields in declaration order.
#[derive(Debug)]
pub struct StructDefinition {
    pub id: StructId,
    pub name: String,
    pub generic_params: GenericParams,
    pub fields: Vec<(String, AnalyzedTypeId)>,
}

/// An enum declaration: the file it is declared in and the value of each variant.
#[derive(Debug)]
pub struct EnumDefinition {
    pub id: EnumId,
    pub name: String,
    pub file: FileId,
    pub variants: Vec<(String, i64)>,
}

/// The struct and enum declarations of a program, and the struct that tuples are
/// instances of.
#[derive(Debug)]
pub struct ResolvedTypes {
    pub structs: Vec<StructDefinition>,
    pub enums: Vec<EnumDefinition>,
    pub tuple_struct: StructId,
}

/// Position of the first field named `name`.
pub open spec fn field_index(fields: Seq<(String, AnalyzedTypeId)>, name: Seq<char>) -> Option<int> {
    first_index(fields, |f: (String, AnalyzedTypeId)| f.0@ == name)
}

/// Position of the first variant named `name`.
pub open spec fn variant_index(variants: Seq<(String, i64)>, name: Seq<char>) -> Option<int> {
    first_index(variants, |v: (String, i64)| v.0@ == name)
}

impl StructDefinition {
    /// The field names in declaration order.
    pub open spec fn field_names(&self) -> Seq<Seq<char>> {
        self.fields@.map_values(|f: (String, AnalyzedTypeId)| f.0@)
    }

    /// The type of field `field_name` for the given generic arguments.
    pub open spec fn spec_field_type(&self, field_name: Seq<char>, generic_args: Seq<TypeView>) -> Option<
        TypeView,
    > {
        match field_index(self.fields@, field_name) {
            Some(i) => Some(
                spec_resolve_generic_type(
                    self.fields@[i].1@,
                    self.generic_params.ids(),
                    generic_args,
                ),
            ),
            None => None,
        }
    }

    /// The type of the field named `field_name`, with the struct's generic parameters
    /// replaced by `generic_args`; `None` when the struct has no such field.
    pub fn get_field_type(&self, field_name: &String, generic_args: &Vec<AnalyzedTypeId>) -> (r:
        Option<AnalyzedTypeId>)
        ensures
            match self.spec_field_type(field_name@, views_of(generic_args@)) {
                Some(t) => r is Some && r.unwrap()@ == t,
                None => r is None,
            },
    {
        let ghost p = |f: (String, AnalyzedTypeId)| f.0@ == field_name@;
        let mut i: usize = 0;
        while i < self.fields.len()
            invariant
                i <= self.fields@.len(),
                p == (|f: (String, AnalyzedTypeId)| f.0@ == field_name@),
                forall|j: int| 0 <= j < i ==> !#[trigger] p(self.fields@[j]),
            decreases self.fields@.len() - i,
        {
            if self.fields[i].0 == *field_name {
                proof {
                    lemma_first_index_found(self.fields@, p, i as int);
                }
                return Some(substitute_generic_type(&self.fields[i].1, &self.generic_params, generic_args));
            }
            i += 1;
        }
        proof {
            lemma_first_index_none(self.fields@, p);
        }
        None
    }
}

impl EnumDefinition {
    pub open spec fn spec_variant_value(&self, name: Seq<char>) -> Option<i64> {
        match variant_index(self.variants@, name) {
            Some(i) => Some(self.variants@[i].1),
            None => None,
        }
    }

    /// The value of the variant named `name`; `None` when the enum has no such variant.
    pub fn get_variant_value(&self, name: &String) -> (r: Option<i64>)
        ensures
            r == self.spec_variant_value(name@),
    {
        let ghost p = |v: (String, i64)| v.0@ == name@;
        let mut i: usize = 0;
        while i < self.variants.len()
            invariant
                i <= self.variants@.len(),
                p == (|v: (String, i64)| v.0@ == name@),
                forall|j: int| 0 <= j < i ==> !#[trigger] p(self.variants@[j]),
            decreases self.variants@.len() - i,
        {
            if self.variants[i].0 == *name {
                proof {
                    lemma_first_index_found(self.variants@, p, i as int);
                }
                return Some(self.variants[i].1);
            }
            i += 1;
        }
        proof {
            lemma_first_index_none(self.variants@, p);
        }
        None
    }
}

/// Position of the first generic parameter named `name`.
pub open spec fn generic_param_index(params: Seq<GenericParam>, name: Seq<char>) -> Option<int> {
    first_index(params, |g: GenericParam| g.name@ == name)
}

impl ResolvedTypes {
    /// Position of the first struct with identifier `id`.
    pub open spec fn struct_index(&self, id: StructId) -> Option<int> {
        first_index(self.structs@, |d: StructDefinition| d.id == id)
    }

    /// Position of the first struct named `name`.
    pub open spec fn struct_index_by_name(&self, name: Seq<char>) -> Option<int> {
        first_index(self.structs@, |d: StructDefinition| d.name@ == name)
    }

    /// Position of the first enum named `name`.
    pub open spec fn enum_index_by_name(&self, name: Seq<char>) -> Option<int> {
        first_index(self.enums@, |d: EnumDefinition| d.name@ == name)
    }

    /// Position of the struct declaration of a type, if the type is a declared struct.
    pub open spec fn spec_struct_of_type(&self, t: TypeView) -> Option<int> {
        match t {
            TypeView::StructType(id, _) => self.struct_index(id),
            _ => None,
        }
    }

    /// The type that a written type denotes, with generic parameters looked up in
    /// `generic_params`.
    pub open spec fn spec_map_type(&self, generic_params: GenericParams, t: ParsedTypeValue) -> Option<
        TypeView,
    >
        decreases t,
    {
        match t {
            ParsedTypeValue::Unit => Some(TypeView::Unit),
            ParsedTypeValue::Bool => Some(TypeView::Bool),
            ParsedTypeValue::Char => Some(TypeView::Char),
            ParsedTypeValue::Integer(n) => Some(TypeView::Integer(n)),
            ParsedTypeValue::Pointer(inner) => match self.spec_map_type(generic_params, *inner) {
                Some(x) => Some(TypeView::Pointer(Box::new(x))),
                None => None,
            },
            ParsedTypeValue::Named { name, generic_args } => {
                if generic_args@.len() == 0 && generic_param_index(
                    generic_params.params@,
                    name@,
                ) is Some {
                    Some(
                        TypeView::GenericType(
                            generic_params.params@[generic_param_index(
                                generic_params.params@,
                                name@,
                            ).unwrap()].id,
                        ),
                    )
                } else if self.struct_index_by_name(name@) is Some {
                    let d = self.structs@[self.struct_index_by_name(name@).unwrap()];
                    if generic_args@.len() == d.generic_params.params@.len() {
                        match self.spec_map_types(generic_params, generic_args@) {
                            Some(vs) => Some(TypeView::StructType(d.id, vs)),
                            None => None,
                        }
                    } else {
                        None
                    }
                } else if self.enum_index_by_name(name@) is Some && generic_args@.len() == 0 {
                    Some(
                        TypeView::EnumType(
                            self.enums@[self.enum_index_by_name(name@).unwrap()].id,
                        ),
                    )
                } else {
                    None
                }
            },
            ParsedTypeValue::Function { return_type, params } => match self.spec_map_type(
                generic_params,
                *return_type,
            ) {
                Some(r) => match self.spec_map_types(generic_params, params@) {
                    Some(ps) => Some(TypeView::FunctionType(Box::new(r), ps)),
                    None => None,
                },
                None => None,
            },
        }
    }

    /// The types that a sequence of written types denotes, if each denotes one.
    pub open spec fn spec_map_types(&self, generic_params: GenericParams, s: Seq<ParsedTypeValue>) -> Option<
        Seq<TypeView>,
    >
        decreases s,
    {
        if s.len() == 0 {
            Some(Seq::empty())
        } else {
            match self.spec_map_type(generic_params, s[0]) {
                Some(x) => match self.spec_map_types(generic_params, s.subrange(1, s.len() as int)) {
                    Some(rest) => Some(seq![x] + rest),
                    None => None,
                },
                None => None,
            }
        }
    }

    pub proof fn lemma_map_types(&self, generic_params: GenericParams, s: Seq<ParsedTypeValue>)
        ensures
            self.spec_map_types(generic_params, s) is Some <==> forall|i: int|
                0 <= i < s.len() ==> #[trigger] self.spec_map_type(generic_params, s[i]) is Some,
            self.spec_map_types(generic_params, s) is Some ==> {
                &&& self.spec_map_types(generic_params, s).unwrap().len() == s.len()
                &&& forall|i: int|
                    0 <= i < s.len() ==> #[trigger] self.spec_map_types(generic_params, s).unwrap()[i]
                        == self.spec_map_type(generic_params, s[i]).unwrap()
            },
        decreases s.len(),
    {
        if s.len() > 0 {
            let rest = s.subrange(1, s.len() as int);
            self.lemma_map_types(generic_params, rest);
            assert forall|i: int| 0 < i < s.len() implies rest[i - 1] == s[i] by {}
            if forall|i: int|
                0 <= i < s.len() ==> #[trigger] self.spec_map_type(generic_params, s[i]) is Some {
                assert forall|i: int| 0 <= i < rest.len() implies #[trigger] self.spec_map_type(
                    generic_params,
                    rest[i],
                ) is Some by {
                    assert(rest[i] == s[i + 1]);
                }
                assert(self.spec_map_type(generic_params, s[0]) is Some);
            }
            if self.spec_map_types(generic_params, s) is Some {
                let all = self.spec_map_types(generic_params, s).unwrap();
                assert forall|i: int| 0 <= i < s.len() implies #[trigger] self.spec_map_type(
                    generic_params,
                    s[i],
                ) is Some && all[i] == self.spec_map_type(generic_params, s[i]).unwrap() by {
                    if i > 0 {
                        assert(rest[i - 1] == s[i]);
                    }
                }
            }
        }
    }

    /// The type that a written type denotes: the built-in types stand for themselves;
    /// a name without generic arguments denotes the first generic parameter of that
    /// name, if any; otherwise the first struct of that name, when as many generic
    /// arguments are given as it has parameters and each denotes a type; otherwise the
    /// first enum of that name, when no generic arguments are given. `None` when the
    /// written type (or a part of it) denotes no type.
    pub fn map_generic_parsed_type(&self, ty: &ParsedTypeValue, generic_params: &GenericParams) -> (r:
        Option<AnalyzedTypeId>)
        ensures
            match self.spec_map_type(*generic_params, *ty) {
                Some(t) => r is Some && r.unwrap()@ == t,
                None => r is None,
            },
        decreases ty,
    {
        match ty {
            ParsedTypeValue::Unit => Some(AnalyzedTypeId::Unit),
            ParsedTypeValue::Bool => Some(AnalyzedTypeId::Bool),
            ParsedTypeValue::Char => Some(AnalyzedTypeId::Char),
            ParsedTypeValue::Integer(n) => Some(AnalyzedTypeId::Integer(*n)),
            ParsedTypeValue::Pointer(inner) => match self.map_generic_parsed_type(inner, generic_params) {
                Some(x) => Some(AnalyzedTypeId::Pointer(Box::new(x))),
                None => None,
            },
            ParsedTypeValue::Named { name, generic_args } => {
                if generic_args.len() == 0 {
                    if let Some(i) = find_generic_param(&generic_params.params, name) {
                        return Some(AnalyzedTypeId::GenericType(generic_params.params[i].id));
                    }
                }
                if let Some(i) = self.find_struct_by_name(name) {
                    let d = &self.structs[i];
                    if generic_args.len() == d.generic_params.params.len() {
                        match self.map_generic_parsed_types(generic_args, generic_params) {
                            Some(vs) => Some(
                                AnalyzedTypeId::StructType(StructRef { id: d.id, generic_args: vs }),
                            ),
                            None => None,
                        }
                    } else {
                        None
                    }
                } else if let Some(i) = self.find_enum_by_name(name) {
                    if generic_args.len() == 0 {
                        Some(AnalyzedTypeId::EnumType(self.enums[i].id))
                    } else {
                        None
                    }
                } else {
                    None
                }
            },
            ParsedTypeValue::Function { return_type, params } => {
                match self.map_generic_parsed_type(return_type, generic_params) {
                    Some(r) => match self.map_generic_parsed_types(params, generic_params) {
                        Some(ps) => Some(AnalyzedTypeId::FunctionType(Box::new(r), ps)),
                        None => None,
                    },
                    None => None,
                }
            },
        }
    }

    /// The types that written types denote, if each denotes one.
    pub fn map_generic_parsed_types(&self, tys: &Vec<ParsedTypeValue>, generic_params: &GenericParams) -> (r:
        Option<Vec<AnalyzedTypeId>>)
        ensures
            match self.spec_map_types(*generic_params, tys@) {
                Some(vs) => r is Some && views_of(r.unwrap()@) == vs,
                None => r is None,
            },
        decreases tys,
    {
        proof {
            self.lemma_map_types(*generic_params, tys@);
        }
        let mut r: Vec<AnalyzedTypeId> = Vec::new();
        let mut i: usize = 0;
        while i < tys.len()
            invariant
                i <= tys@.len(),
                r@.len() == i,
                forall|j: int|
                    0 <= j < i ==> #[trigger] self.spec_map_type(*generic_params, tys@[j]) is Some
                        && r@[j]@ == self.spec_map_type(*generic_params, tys@[j]).unwrap(),
            decreases tys@.len() - i,
        {
            match self.map_generic_parsed_type(&tys[i], generic_params) {
                Some(t) => r.push(t),
                None => {
                    proof {
                        self.lemma_map_types(*generic_params, tys@);
                    }
                    return None;
                },
            }
            i += 1;
        }
        proof {
            self.lemma_map_types(*generic_params, tys@);
            lemma_views_of(r@);
            assert(views_of(r@) =~= self.spec_map_types(*generic_params, tys@).unwrap());
        }
        Some(r)
    }

    fn find_struct_by_name(&self, name: &String) -> (r: Option<usize>)
        ensures
            match r {
                Some(i) => self.struct_index_by_name(name@) == Some(i as int) && i < self.structs@.len(),
                None => self.struct_index_by_name(name@) is None,
            },
    {
        let ghost p = |d: StructDefinition| d.name@ == name@;
        let mut i: usize = 0;
        while i < self.structs.len()
            invariant
                i <= self.structs@.len(),
                p == (|d: StructDefinition| d.name@ == name@),
                forall|j: int| 0 <= j < i ==> !#[trigger] p(self.structs@[j]),
            decreases self.structs@.len() - i,
        {
            if self.structs[i].name == *name {
                proof {
                    lemma_first_index_found(self.structs@, p, i as int);
                }
                return Some(i);
            }
            i += 1;
        }
        proof {
            lemma_first_index_none(self.structs@, p);
        }
        None
    }

    fn find_enum_by_name(&self, name: &String) -> (r: Option<usize>)
        ensures
            match r {
                Some(i) => self.enum_index_by_name(name@) == Some(i as int) && i < self.enums@.len(),
                None => self.enum_index_by_name(name@) is None,
            },
    {
        let ghost p = |d: EnumDefinition| d.name@ == name@;
        let mut i: usize = 0;
        while i < self.enums.len()
            invariant
                i <= self.enums@.len(),
                p == (|d: EnumDefinition| d.name@ == name@),
                forall|j: int| 0 <= j < i ==> !#[trigger] p(self.enums@[j]),
            decreases self.enums@.len() - i,
        {
            if self.enums[i].name == *name {
                proof {
                    lemma_first_index_found(self.enums@, p, i as int);
                }
                return Some(i);
            }
            i += 1;
        }
        proof {
            lemma_first_index_none(self.enums@, p);
        }
        None
    }

    /// The declaration of a struct type; `None` for other types and undeclared structs.
    #[verifier::loop_isolation(false)]
    pub fn get_struct_from_type(&self, ty: &AnalyzedTypeId) -> (r: Option<&StructDefinition>)
        ensures
            match r {
                Some(d) => self.spec_struct_of_type(ty@) is Some && 0 <= self.spec_struct_of_type(
                    ty@,
                ).unwrap() < self.structs@.len() && *d
                    == self.structs@[self.spec_struct_of_type(ty@).unwrap()],
                None => self.spec_struct_of_type(ty@) is None,
            },
    {
        match ty {
            AnalyzedTypeId::StructType(struct_ref) => {
                let ghost p = |d: StructDefinition| d.id == struct_ref.id;
                proof {
                    assert(ty@ == TypeView::StructType(struct_ref.id, views_of(struct_ref.generic_args@)));
                    assert(p =~= (|d: StructDefinition| d.id == struct_ref.id));
                }
                let mut i: usize = 0;
                while i < self.structs.len()
                    invariant
                        i <= self.structs@.len(),
                        p == (|d: StructDefinition| d.id == struct_ref.id),
                        forall|j: int| 0 <= j < i ==> !#[trigger] p(self.structs@[j]),
                    decreases self.structs@.len() - i,
                {
                    if self.structs[i].id == struct_ref.id {
                        proof {
                            lemma_first_index_found(self.structs@, p, i as int);
                            assert(ty@ == TypeView::StructType(struct_ref.id, views_of(struct_ref.generic_args@)));
                            assert(p =~= (|d: StructDefinition| d.id == struct_ref.id));
                        }
                        return Some(&self.structs[i]);
                    }
                    i += 1;
                }
                proof {
                    lemma_first_index_none(self.structs@, p);
                }
                None
            },
            _ => None,
        }
    }

    /// The type of a tuple with elements of the given types: an instance of the tuple
    /// struct with the element types as generic arguments.
    pub fn get_tuple_type(&self, element_types: &Vec<AnalyzedTypeId>) -> (r: AnalyzedTypeId)
        ensures
            r@ == TypeView::StructType(self.tuple_struct, views_of(element_types@)),
    {
        AnalyzedTypeId::StructType(
            StructRef { id: self.tuple_struct, generic_args: clone_types(element_types) },
        )
    }

    /// Position of the enum that a qualified variant name refers to: the first enum
    /// declared in `file_id` whose name is the last segment of the qualifier.
    pub open spec fn spec_enum_of_variant(&self, item_id: ItemId, file_id: FileId) -> Option<int> {
        let path = item_id.module_id.path@;
        if path.len() == 0 {
            None
        } else {
            first_index(
                self.enums@,
                |d: EnumDefinition| d.name@ == path[path.len() - 1]@ && d.file == file_id,
            )
        }
    }

    /// The enum that a qualified variant name (`Enum::Variant`) refers to.
    #[verifier::loop_isolation(false)]
    pub fn get_enum_from_variant(&self, item_id: &ItemId, file_id: &FileId) -> (r: Option<
        &EnumDefinition,
    >)
        ensures
            match r {
                Some(d) => self.spec_enum_of_variant(*item_id, *file_id) is Some && *d
                    == self.enums@[self.spec_enum_of_variant(*item_id, *file_id).unwrap()],
                None => self.spec_enum_of_variant(*item_id, *file_id) is None,
            },
    {
        let path = &item_id.module_id.path;
        if path.len() == 0 {
            return None;
        }
        let last = &path[path.len() - 1];
        let ghost p = |d: EnumDefinition| d.name@ == last@ && d.file == *file_id;
        proof {
            let sp = item_id.module_id.path@;
            assert(p =~= (|d: EnumDefinition| d.name@ == sp[sp.len() - 1]@ && d.file == *file_id));
        }
        let mut i: usize = 0;
        while i < self.enums.len()
            invariant
                i <= self.enums@.len(),
                p == (|d: EnumDefinition| d.name@ == last@ && d.file == *file_id),
                forall|j: int| 0 <= j < i ==> !#[trigger] p(self.enums@[j]),
            decreases self.enums@.len() - i,
        {
            if self.enums[i].name == *last && self.enums[i].file == *file_id {
                proof {
                    lemma_first_index_found(self.enums@, p, i as int);
                    let sp = item_id.module_id.path@;
                    assert(p =~= (|d: EnumDefinition| d.name@ == sp[sp.len() - 1]@ && d.file == *file_id));
                }
                return Some(&self.enums[i]);
            }
            i += 1;
        }
        proof {
            lemma_first_index_none(self.enums@, p);
        }
        None
    }
}

fn find_generic_param(params: &Vec<GenericParam>, name: &String) -> (r: Option<usize>)
    ensures
        match r {
            Some(i) => generic_param_index(params@, name@) == Some(i as int) && i < params@.len(),
            None => generic_param_index(params@, name@) is None,
        },
{
    let ghost p = |g: GenericParam| g.name@ == name@;
    let mut i: usize = 0;
    while i < params.len()
        invariant
            i <= params@.len(),
            p == (|g: GenericParam| g.name@ == name@),
            forall|j: int| 0 <= j < i ==> !#[trigger] p(params@[j]),
        decreases params@.len() - i,
    {
        if params[i].name == *name {
            proof {
                lemma_first_index_found(params@, p, i as int);
            }
            return Some(i);
        }
        i += 1;
    }
    proof {
        lemma_first_index_none(params@, p);
    }
    None
}

} // verus!
