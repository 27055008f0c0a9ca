use vstd::prelude::*;
use crate::analyzed_type::{clone_type, AnalyzedTypeId, GenericParams, TypeView};
use crate::resolved_functions::ResolvedFunctions;
use crate::resolved_types::ResolvedTypes;

verus! {

/// A local variable: its type and whether it was declared in the innermost block.
#[derive(Debug)]
pub struct LocalVariable {
    pub ty: AnalyzedTypeId,
    pub is_current_scope: bool,
}

/// Model of a local variable.
pub struct LocalView {
    pub ty: TypeView,
    pub is_current_scope: bool,
}

impl View for LocalVariable {
    type V = LocalView;

    open spec fn view(&self) -> LocalView {
        LocalView { ty: self.ty@, is_current_scope: self.is_current_scope }
    }
}

/// The local variables in scope, by name.
#[derive(Debug)]
pub struct LocalVariables {
    entries: Vec<(String, LocalVariable)>,
}

/// All variables moved out of the current scope.
pub open spec fn leave_scope(m: Map<Seq<char>, LocalView>) -> Map<Seq<char>, LocalView> {
    m.map_values(|v: LocalView| LocalView { ty: v.ty, is_current_scope: false })
}

impl LocalVariables {
    #[verifier::type_invariant]
    spec fn names_distinct(self) -> bool {
        forall|i: int, j: int|
            0 <= i < j < self.entries@.len() ==> #[trigger] self.entries@[i].0@
                != #[trigger] self.entries@[j].0@
    }

    spec fn has_name(self, name: Seq<char>) -> bool {
        exists|i: int| 0 <= i < self.entries@.len() && #[trigger] self.entries@[i].0@ == name
    }

    spec fn position(self, name: Seq<char>) -> int {
        choose|i: int| 0 <= i < self.entries@.len() && #[trigger] self.entries@[i].0@ == name
    }

    /// The variables by name.
    pub closed spec fn view(&self) -> Map<Seq<char>, LocalView> {
        Map::new(
            |name: Seq<char>| self.has_name(name),
            |name: Seq<char>| self.entries@[self.position(name)].1@,
        )
    }

    proof fn lemma_position(&self, i: int)
        requires
            self.names_distinct(),
            0 <= i < self.entries@.len(),
        ensures
            self.has_name(self.entries@[i].0@),
            self.position(self.entries@[i].0@) == i,
    {
        let name = self.entries@[i].0@;
        assert(self.entries@[i].0@ == name);
        let k = self.position(name);
        if k != i {
            if k < i {
                assert(self.entries@[k].0@ != self.entries@[i].0@);
            } else {
                assert(self.entries@[i].0@ != self.entries@[k].0@);
            }
        }
    }

    /// No variables.
    pub fn new() -> (r: Self)
        ensures
            r@ == Map::<Seq<char>, LocalView>::empty(),
    {
        let r = LocalVariables { entries: Vec::new() };
        assert(r@ =~= Map::<Seq<char>, LocalView>::empty());
        r
    }

    fn find(&self, name: &String) -> (r: Option<usize>)
        ensures
            match r {
                Some(i) => i < self.entries@.len() && self.entries@[i as int].0@ == name@,
                None => !self.has_name(name@),
            },
    {
        let mut i: usize = 0;
        while i < self.entries.len()
            invariant
                i <= self.entries@.len(),
                forall|j: int| 0 <= j < i ==> #[trigger] self.entries@[j].0@ != name@,
            decreases self.entries@.len() - i,
        {
            if self.entries[i].0 == *name {
                return Some(i);
            }
            i += 1;
        }
        None
    }

    /// The variable named `name`, if declared.
    pub fn get(&self, name: &String) -> (r: Option<&LocalVariable>)
        ensures
            match r {
                Some(v) => self@.contains_key(name@) && self@[name@] == v@,
                None => !self@.contains_key(name@),
            },
    {
        proof {
            use_type_invariant(self);
        }
        match self.find(name) {
            Some(i) => {
                proof {
                    self.lemma_position(i as int);
                }
                Some(&self.entries[i].1)
            },
            None => None,
        }
    }

    /// Declares `name` as `value`, replacing a variable of the same name; gives back
    /// the replaced variable.
    pub fn insert(&mut self, name: String, value: LocalVariable) -> (r: Option<LocalVariable>)
        ensures
            final(self)@ == old(self)@.insert(name@, value@),
            match r {
                Some(v) => old(self)@.contains_key(name@) && old(self)@[name@] == v@,
                None => !old(self)@.contains_key(name@),
            },
    {
        proof {
            use_type_invariant(&*self);
        }
        let ghost old_view = self@;
        let ghost new_value = value@;
        let ghost key = name@;
        match self.find(&name) {
            Some(i) => {
                proof {
                    self.lemma_position(i as int);
                }
                let ghost before = self.entries@;
                let mut entries = Vec::new();
                std::mem::swap(&mut entries, &mut self.entries);
                let mut entry = (name, value);
                std::mem::swap(&mut entry, &mut entries[i]);
                self.entries = entries;
                proof {
                    assert(self.entries@ == before.update(i as int, (self.entries@[i as int].0, self.entries@[i as int].1)));
                    assert forall|a: int, b: int|
                        0 <= a < b < self.entries@.len() implies #[trigger] self.entries@[a].0@
                        != #[trigger] self.entries@[b].0@ by {
                        if a != i && b != i {
                            assert(before[a].0@ != before[b].0@);
                        } else if a == i {
                            assert(before[a].0@ != before[b].0@);
                        } else {
                            assert(before[a].0@ != before[b].0@);
                        }
                    }
                    assert(self.names_distinct());
                    self.lemma_position(i as int);
                    assert forall|k: Seq<char>| #[trigger] self@.contains_key(k) == old_view.insert(
                        key,
                        new_value,
                    ).contains_key(k) by {
                        if self.has_name(k) {
                            let p = self.position(k);
                            if p != i {
                                assert(before[p].0@ == k);
                            }
                        }
                        if old_view.contains_key(k) && k != key {
                            let p = choose|p: int| 0 <= p < before.len() && #[trigger] before[p].0@ == k;
                            assert(self.entries@[p].0@ == k);
                        }
                    }
                    assert forall|k: Seq<char>| #[trigger] self@.contains_key(k) implies self@[k]
                        == old_view.insert(key, new_value)[k] by {
                        if k != key {
                            let p = self.position(k);
                            assert(before[p].0@ == k);
                            assert(p != i);
                            let q = choose|q: int| 0 <= q < before.len() && #[trigger] before[q].0@ == k;
                            if q != p {
                                if q < p {
                                    assert(before[q].0@ != before[p].0@);
                                } else {
                                    assert(before[p].0@ != before[q].0@);
                                }
                            }
                        }
                    }
                    assert(self@ =~= old_view.insert(key, new_value));
                }
                let (_, previous) = entry;
                Some(previous)
            },
            None => {
                let ghost before = self.entries@;
                let mut entries = Vec::new();
                std::mem::swap(&mut entries, &mut self.entries);
                entries.push((name, value));
                self.entries = entries;
                proof {
                    let n = before.len() as int;
                    assert(self.entries@ == before.push(self.entries@[n]));
                    assert forall|a: int, b: int|
                        0 <= a < b < self.entries@.len() implies #[trigger] self.entries@[a].0@
                        != #[trigger] self.entries@[b].0@ by {
                        if b == n {
                            assert(before[a].0@ != key);
                        } else {
                            assert(before[a].0@ != before[b].0@);
                        }
                    }
                    assert(self.names_distinct());
                    self.lemma_position(n);
                    assert forall|k: Seq<char>| #[trigger] self@.contains_key(k) == old_view.insert(
                        key,
                        new_value,
                    ).contains_key(k) by {
                        if self.has_name(k) && k != key {
                            let p = self.position(k);
                            assert(before[p].0@ == k);
                        }
                        if old_view.contains_key(k) {
                            let p = choose|p: int| 0 <= p < before.len() && #[trigger] before[p].0@ == k;
                            assert(self.entries@[p].0@ == k);
                        }
                    }
                    assert forall|k: Seq<char>| #[trigger] self@.contains_key(k) implies self@[k]
                        == old_view.insert(key, new_value)[k] by {
                        if k != key {
                            let p = self.position(k);
                            assert(p != n);
                            assert(before[p].0@ == k);
                            let q = choose|q: int| 0 <= q < before.len() && #[trigger] before[q].0@ == k;
                            if q != p {
                                if q < p {
                                    assert(before[q].0@ != before[p].0@);
                                } else {
                                    assert(before[p].0@ != before[q].0@);
                                }
                            }
                        }
                    }
                    assert(self@ =~= old_view.insert(key, new_value));
                }
                None
            },
        }
    }

    /// Marks every variable as declared outside the current scope.
    pub fn leave_current_scope(&mut self)
        ensures
            final(self)@ == leave_scope(old(self)@),
    {
        proof {
            use_type_invariant(&*self);
        }
        let ghost old_view = self@;
        let ghost before = self.entries@;
        let mut entries = Vec::new();
        std::mem::swap(&mut entries, &mut self.entries);
        let mut result: Vec<(String, LocalVariable)> = Vec::new();
        let mut i: usize = 0;
        while i < entries.len()
            invariant
                i <= entries@.len(),
                entries@ == before,
                result@.len() == i,
                forall|j: int|
                    0 <= j < i ==> #[trigger] result@[j].0@ == before[j].0@ && result@[j].1@ == (
                    LocalView { ty: before[j].1@.ty, is_current_scope: false }),
            decreases entries@.len() - i,
        {
            let name = entries[i].0.clone();
            let ty = clone_type(&entries[i].1.ty);
            result.push((name, LocalVariable { ty, is_current_scope: false }));
            i += 1;
        }
        self.entries = result;
        proof {
            assert forall|a: int, b: int|
                0 <= a < b < self.entries@.len() implies #[trigger] self.entries@[a].0@
                != #[trigger] self.entries@[b].0@ by {
                assert(before[a].0@ != before[b].0@);
            }
            assert(self.names_distinct());
            assert forall|k: Seq<char>| #[trigger] self@.contains_key(k) == old_view.contains_key(k) by {
                if self.has_name(k) {
                    let p = self.position(k);
                    assert(before[p].0@ == k);
                }
                if old_view.contains_key(k) {
                    let p = choose|p: int| 0 <= p < before.len() && #[trigger] before[p].0@ == k;
                    assert(self.entries@[p].0@ == k);
                }
            }
            assert forall|k: Seq<char>| #[trigger] self@.contains_key(k) implies self@[k]
                == leave_scope(old_view)[k] by {
                let p = self.position(k);
                assert(before[p].0@ == k);
                let q = choose|q: int| 0 <= q < before.len() && #[trigger] before[q].0@ == k;
                if q != p {
                    if q < p {
                        assert(before[q].0@ != before[p].0@);
                    } else {
                        assert(before[p].0@ != before[q].0@);
                    }
                }
            }
            assert(self@ =~= leave_scope(old_view));
        }
    }

    /// Copy of the variables.
    pub fn duplicate(&self) -> (r: Self)
        ensures
            r@ == self@,
    {
        proof {
            use_type_invariant(self);
        }
        let mut result: Vec<(String, LocalVariable)> = Vec::new();
        let mut i: usize = 0;
        while i < self.entries.len()
            invariant
                i <= self.entries@.len(),
                result@.len() == i,
                forall|j: int|
                    0 <= j < i ==> #[trigger] result@[j].0@ == self.entries@[j].0@ && result@[j].1@
                        == self.entries@[j].1@,
            decreases self.entries@.len() - i,
        {
            let name = self.entries[i].0.clone();
            let ty = clone_type(&self.entries[i].1.ty);
            let scope = self.entries[i].1.is_current_scope;
            result.push((name, LocalVariable { ty, is_current_scope: scope }));
            assert(result@[i as int].0@ == self.entries@[i as int].0@);
            assert(result@[i as int].1@ == self.entries@[i as int].1@);
            i += 1;
        }
        let r = LocalVariables { entries: result };
        proof {
            assert forall|a: int, b: int|
                0 <= a < b < r.entries@.len() implies #[trigger] r.entries@[a].0@
                != #[trigger] r.entries@[b].0@ by {
                assert(self.entries@[a].0@ != self.entries@[b].0@);
            }
            assert forall|k: Seq<char>| #[trigger] r@.contains_key(k) == self@.contains_key(k) by {
                if r.has_name(k) {
                    let p = r.position(k);
                    assert(self.entries@[p].0@ == k);
                }
                if self.has_name(k) {
                    let p = self.position(k);
                    assert(r.entries@[p].0@ == k);
                }
            }
            assert forall|k: Seq<char>| #[trigger] r@.contains_key(k) implies r@[k] == self@[k] by {
                let p = r.position(k);
                let q = self.position(k);
                if q != p {
                    if q < p {
                        assert(self.entries@[q].0@ != self.entries@[p].0@);
                    } else {
                        assert(self.entries@[p].0@ != self.entries@[q].0@);
                    }
                }
            }
            assert(r@ =~= self@);
        }
        r
    }
}

/// What expression analysis works in: the declarations of the program, the local
/// variables, the generic parameters and the return type of the enclosing function.
#[derive(Debug)]
pub struct AnalyzerContext {
    pub types: ResolvedTypes,
    pub functions: ResolvedFunctions,
    pub local_variables: LocalVariables,
    pub generic_params: GenericParams,
    pub return_type: AnalyzedTypeId,
}

} // verus!
