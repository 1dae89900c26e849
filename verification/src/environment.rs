//! The environment chain: name-to-value scopes with parent linkage.
//!
//! Scopes live in an arena (`Vec<Scope>`) and refer to their parent by
//! index; a closure captures the index of its defining scope. A scope's
//! bindings are an association list whose newest entry for a name wins;
//! its mathematical image is a `Map` from name to value.
use vstd::prelude::*;
use crate::lit::{LitType, ValModel};

verus! {

/// One scope: its parent (an index of an earlier arena entry, `None` for
/// the globals) and its bindings, as two columns of equal length.
pub struct Scope {
    pub parent: Option<usize>,
    pub names: Vec<String>,
    pub values: Vec<LitType>,
}

/// Mathematical image of one scope.
pub ghost struct ScopeModel {
    pub parent: Option<int>,
    pub bindings: Map<Seq<char>, ValModel>,
}

/// The map an association list denotes: later entries override earlier
/// ones.
pub open spec fn assoc(names: Seq<Seq<char>>, vals: Seq<ValModel>) -> Map<Seq<char>, ValModel>
    decreases names.len(),
{
    if names.len() == 0 || vals.len() == 0 {
        Map::empty()
    } else if names.len() <= vals.len() {
        let n = names.len();
        assoc(names.take(n - 1), vals.take(n - 1)).insert(names[n - 1], vals[n - 1])
    } else {
        let n = vals.len();
        assoc(names.take(n as int - 1), vals.take(n as int - 1)).insert(
            names[n as int - 1],
            vals[n as int - 1],
        )
    }
}


/// Entries at or beyond `j` that do not mention `key` do not affect what
/// the list says about `key`.
pub proof fn lemma_assoc_skip(ns: Seq<Seq<char>>, vs: Seq<ValModel>, key: Seq<char>, j: int)
    requires
        ns.len() == vs.len(),
        0 <= j <= ns.len(),
        forall|k: int| j <= k < ns.len() ==> ns[k] != key,
    ensures
        assoc(ns, vs).contains_key(key) == assoc(ns.take(j), vs.take(j)).contains_key(key),
        assoc(ns, vs).contains_key(key) ==> assoc(ns, vs)[key] == assoc(ns.take(j), vs.take(j))[key],
    decreases ns.len() - j,
{
    if j < ns.len() {
        lemma_assoc_skip(ns.take(ns.len() - 1), vs.take(vs.len() - 1), key, j);
        assert(ns.take(ns.len() - 1).take(j) =~= ns.take(j));
        assert(vs.take(vs.len() - 1).take(j) =~= vs.take(j));
    } else {
        assert(ns.take(j) =~= ns);
        assert(vs.take(j) =~= vs);
    }
}

pub open spec fn scope_model(s: Scope) -> ScopeModel {
    ScopeModel {
        parent: match s.parent {
            Some(p) => Some(p as int),
            None => None,
        },
        bindings: assoc(
            s.names@.map_values(|n: String| n@),
            s.values@.map_values(|v: LitType| v@),
        ),
    }
}

impl View for Scope {
    type V = ScopeModel;

    open spec fn view(&self) -> ScopeModel {
        scope_model(*self)
    }
}

/// The value a name denotes in the chain starting at scope `s`: the
/// binding of the nearest scope on the parent chain that binds it.
pub open spec fn lookup(scopes: Seq<ScopeModel>, s: int, name: Seq<char>) -> Option<ValModel>
    decreases (if s >= 0 { s } else { 0 }),
{
    if 0 <= s < scopes.len() {
        let sc = scopes[s];
        if sc.bindings.contains_key(name) {
            Some(sc.bindings[name])
        } else {
            match sc.parent {
                Some(p) => if 0 <= p < s {
                    lookup(scopes, p, name)
                } else {
                    None
                },
                None => None,
            }
        }
    } else {
        None
    }
}

/// The scope the chain starting at `s` would bind `name` in: the nearest
/// scope on the parent chain that already binds it.
pub open spec fn resolve(scopes: Seq<ScopeModel>, s: int, name: Seq<char>) -> Option<int>
    decreases (if s >= 0 { s } else { 0 }),
{
    if 0 <= s < scopes.len() {
        let sc = scopes[s];
        if sc.bindings.contains_key(name) {
            Some(s)
        } else {
            match sc.parent {
                Some(p) => if 0 <= p < s {
                    resolve(scopes, p, name)
                } else {
                    None
                },
                None => None,
            }
        }
    } else {
        None
    }
}

/// The scope arena. Index 0, created by `new`, is the global scope.
pub struct Environment {
    pub scopes: Vec<Scope>,
}

impl View for Environment {
    type V = Seq<ScopeModel>;

    open spec fn view(&self) -> Seq<ScopeModel> {
        Seq::new(self.scopes@.len(), |i: int| self.scopes@[i]@)
    }
}

impl Environment {
    /// Both columns of every scope have the same length.
    pub open spec fn wf(&self) -> bool {
        forall|i: int|
            0 <= i < self.scopes@.len() ==> (#[trigger] self.scopes@[i]).names@.len()
                == self.scopes@[i].values@.len()
    }

    /// A fresh arena holding only an empty global scope.
    pub fn new() -> (env: Environment)
        ensures
            env.wf(),
            env@ =~= seq![ScopeModel { parent: None, bindings: Map::empty() }],
    {
        let mut scopes: Vec<Scope> = Vec::new();
        scopes.push(Scope { parent: None, names: Vec::new(), values: Vec::new() });
        let env = Environment { scopes };
        proof {
            assert(env@[0].bindings =~= Map::<Seq<char>, ValModel>::empty());
        }
        env
    }

    /// Appends a fresh empty scope whose parent is `parent`; returns its
    /// index.
    pub fn push_scope(&mut self, parent: usize) -> (idx: usize)
        requires
            old(self).wf(),
        ensures
            final(self).wf(),
            idx == old(self)@.len(),
            final(self)@ =~= old(self)@ + seq![
                ScopeModel { parent: Some(parent as int), bindings: Map::empty() },
            ],
    {
        let idx = self.scopes.len();
        self.scopes.push(Scope { parent: Some(parent), names: Vec::new(), values: Vec::new() });
        proof {
            assert(self@[idx as int].bindings =~= Map::<Seq<char>, ValModel>::empty());
            assert(final(self)@ =~= old(self)@ + seq![
                ScopeModel { parent: Some(parent as int), bindings: Map::empty() },
            ]);
        }
        idx
    }

    /// Binds `name` to `value` in scope `scope`, shadowing any previous
    /// binding of that scope. Never fails.
    pub fn define(&mut self, scope: usize, name: String, value: LitType)
        requires
            old(self).wf(),
            scope < old(self)@.len(),
        ensures
            final(self).wf(),
            final(self)@ =~= old(self)@.update(
                scope as int,
                ScopeModel {
                    parent: old(self)@[scope as int].parent,
                    bindings: old(self)@[scope as int].bindings.insert(name@, value@),
                },
            ),
    {
        let ghost old_env = *self;
        let sc = &mut self.scopes[scope];
        let ghost n = sc.names@.len() as int;
        sc.names.push(name);
        sc.values.push(value);
        proof {
            let ns = self.scopes@[scope as int].names@.map_values(|n: String| n@);
            let vs = self.scopes@[scope as int].values@.map_values(|v: LitType| v@);
            assert(ns.take(ns.len() - 1) =~= old_env.scopes@[scope as int].names@.map_values(
                |n: String| n@,
            ));
            assert(vs.take(vs.len() - 1) =~= old_env.scopes@[scope as int].values@.map_values(
                |v: LitType| v@,
            ));
            assert(final(self)@ =~= old(self)@.update(
                scope as int,
                ScopeModel {
                    parent: old(self)@[scope as int].parent,
                    bindings: old(self)@[scope as int].bindings.insert(name@, value@),
                },
            ));
        }
    }

    /// What scope `s` itself binds `name` to, if anything.
    fn scope_lookup(&self, s: usize, name: &String) -> (r: Option<LitType>)
        requires
            self.wf(),
            s < self@.len(),
        ensures
            match r {
                Some(v) => self@[s as int].bindings.contains_key(name@) && self@[
                    s as int
                ].bindings[name@] == v@,
                None => !self@[s as int].bindings.contains_key(name@),
            },
    {
        let sc = &self.scopes[s];
        let ghost ns = sc.names@.map_values(|n: String| n@);
        let ghost vs = sc.values@.map_values(|v: LitType| v@);
        let mut j = sc.names.len();
        while j > 0
            invariant
                self.wf(),
                s < self.scopes@.len(),
                sc == self.scopes@[s as int],
                ns == sc.names@.map_values(|n: String| n@),
                vs == sc.values@.map_values(|v: LitType| v@),
                j <= sc.names@.len(),
                forall|k: int| j <= k < ns.len() ==> ns[k] != name@,
            decreases j,
        {
            j = j - 1;
            let hit = sc.names[j].eq(name);
            proof {
                assert(ns[j as int] == sc.names@[j as int]@);
                assert(vs[j as int] == sc.values@[j as int]@);
            }
            if hit {
                proof {
                    lemma_assoc_skip(ns, vs, name@, j + 1);
                    assert(ns.take(j + 1).take(j as int) =~= ns.take(j as int));
                    assert(vs.take(j + 1).take(j as int) =~= vs.take(j as int));
                    assert(ns.take(j + 1)[j as int] == ns[j as int]);
                    assert(vs.take(j + 1)[j as int] == vs[j as int]);
                }
                return Some(sc.values[j].clone());
            }
        }
        proof {
            lemma_assoc_skip(ns, vs, name@, 0);
            assert(ns.take(0) =~= Seq::<Seq<char>>::empty());
            assert(vs.take(0) =~= Seq::<ValModel>::empty());
        }
        None
    }

    /// Looks `name` up along the parent chain from scope `scope`; returns
    /// a copy of the nearest binding, or `None` where no scope on the
    /// chain binds it.
    pub fn get(&self, scope: usize, name: &String) -> (r: Option<LitType>)
        requires
            self.wf(),
        ensures
            match r {
                Some(v) => lookup(self@, scope as int, name@) == Some(v@),
                None => lookup(self@, scope as int, name@) is None,
            },
    {
        let mut s = scope;
        loop
            invariant
                self.wf(),
                lookup(self@, scope as int, name@) == lookup(self@, s as int, name@),
            decreases s + 1,
        {
            if s >= self.scopes.len() {
                return None;
            }
            match self.scope_lookup(s, name) {
                Some(v) => {
                    return Some(v);
                },
                None => {},
            }
            match self.scopes[s].parent {
                Some(p) => {
                    if p < s {
                        s = p;
                    } else {
                        return None;
                    }
                },
                None => {
                    return None;
                },
            }
        }
    }

    /// Writes `value` over the nearest binding of `name` on the parent
    /// chain from `scope`. Returns false, changing nothing, where no
    /// scope on the chain binds the name: assignment never creates a
    /// binding.
    pub fn assign(&mut self, scope: usize, name: &String, value: LitType) -> (r: bool)
        requires
            old(self).wf(),
        ensures
            final(self).wf(),
            match resolve(old(self)@, scope as int, name@) {
                Some(j) => r && 0 <= j < old(self)@.len() && final(self)@ =~= old(self)@.update(
                    j,
                    ScopeModel {
                        parent: old(self)@[j].parent,
                        bindings: old(self)@[j].bindings.insert(name@, value@),
                    },
                ),
                None => !r && *final(self) == *old(self),
            },
    {
        let target = self.resolve_scope(scope, name);
        match target {
            Some(j) => {
                self.define(j, name.clone(), value);
                true
            },
            None => false,
        }
    }

    /// The index of the nearest scope on the chain from `scope` that
    /// binds `name`.
    fn resolve_scope(&self, scope: usize, name: &String) -> (r: Option<usize>)
        requires
            self.wf(),
        ensures
            match r {
                Some(j) => resolve(self@, scope as int, name@) == Some(j as int) && j < self@.len(),
                None => resolve(self@, scope as int, name@) is None,
            },
    {
        let mut s = scope;
        loop
            invariant
                self.wf(),
                resolve(self@, scope as int, name@) == resolve(self@, s as int, name@),
            decreases s + 1,
        {
            if s >= self.scopes.len() {
                return None;
            }
            if self.scope_binds(s, name) {
                return Some(s);
            }
            match self.scopes[s].parent {
                Some(p) => {
                    if p < s {
                        s = p;
                    } else {
                        return None;
                    }
                },
                None => {
                    return None;
                },
            }
        }
    }

    /// Whether scope `s` itself binds `name`.
    fn scope_binds(&self, s: usize, name: &String) -> (r: bool)
        requires
            self.wf(),
            s < self@.len(),
        ensures
            r == self@[s as int].bindings.contains_key(name@),
    {
        match self.scope_lookup(s, name) {
            Some(_) => true,
            None => false,
        }
    }
}

} // verus!
