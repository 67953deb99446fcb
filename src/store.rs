//! The store: documentation records, the set of known module paths, the
//! per-scope indices of function and struct names, and the cache of module
//! paths in its JSON form.

use vstd::prelude::*;
use crate::document::{copy_strings, strings_view, Documentation, ModPath};

verus! {

#[verifier::external_type_specification]
#[verifier::external_body]
pub struct ExJsonError(serde_json::Error);

/// The JSON text that serde_json writes for a list of module paths, each a
/// list of segment strings.
pub uninterp spec fn json_of_paths(p: Seq<Seq<Seq<char>>>) -> Seq<char>;

pub open spec fn nested_view(v: Seq<Vec<String>>) -> Seq<Seq<Seq<char>>> {
    v.map_values(|p: Vec<String>| strings_view(p@))
}

/// Relies on serde_json::to_string: a list of lists of strings always
/// serializes (the output is an in-memory buffer), to one fixed text.
#[verifier::external_body]
fn paths_to_json(v: &Vec<Vec<String>>) -> (r: String)
    ensures
        r@ == json_of_paths(nested_view(v@)),
{
    match serde_json::to_string(v) {
        Ok(s) => s,
        Err(_) => String::new(),
    }
}

/// Relies on serde_json::from_str: the text that serde_json::to_string wrote
/// for a list of lists of strings reads back as that same list.
#[verifier::external_body]
fn paths_from_json(s: &str) -> (r: Result<Vec<Vec<String>>, serde_json::Error>)
    ensures
        forall|p: Seq<Seq<Seq<char>>>|
            #[trigger] json_of_paths(p) == s@ ==> r is Ok && nested_view(r->Ok_0@) == p,
{
    serde_json::from_str(s)
}

/// Errors of the store.
#[derive(Debug, PartialEq, Eq, Structural)]
pub enum StoreError {
    /// The cache text is not a JSON list of module paths.
    CacheCorrupt,
    /// No record has the requested module path.
    NotFound,
}

/// A name recorded under a module path.
#[derive(Debug)]
pub struct ScopedName {
    pub scope: ModPath,
    pub name: String,
}

/// A set of documentation for a single crate.
#[derive(Debug)]
pub struct Store {
    pub name: String,
    pub path: String,
    pub documents: Vec<Documentation>,
    pub modpaths: Vec<ModPath>,
    pub functions: Vec<ScopedName>,
    pub structs: Vec<ScopedName>,
}

/// Whether some entry is recorded under `scope`.
pub open spec fn scope_known(entries: Seq<ScopedName>, scope: Seq<Seq<char>>) -> bool {
    exists|j: int| 0 <= j < entries.len() && (#[trigger] entries[j]).scope@ == scope
}

/// The names recorded under `scope`.
pub open spec fn scope_names(entries: Seq<ScopedName>, scope: Seq<Seq<char>>) -> Set<Seq<char>> {
    Set::new(
        |n: Seq<char>|
            exists|j: int|
                0 <= j < entries.len() && (#[trigger] entries[j]).scope@ == scope && entries[j].name@
                    == n,
    )
}

/// The name index of a list of entries: each known scope with its names.
pub open spec fn index_of(entries: Seq<ScopedName>) -> Map<Seq<Seq<char>>, Set<Seq<char>>> {
    Map::new(|s: Seq<Seq<char>>| scope_known(entries, s), |s: Seq<Seq<char>>| scope_names(entries, s))
}

/// The index after recording `name` under `scope`.
pub open spec fn index_add(
    index: Map<Seq<Seq<char>>, Set<Seq<char>>>,
    scope: Seq<Seq<char>>,
    name: Seq<char>,
) -> Map<Seq<Seq<char>>, Set<Seq<char>>> {
    if index.contains_key(scope) {
        index.insert(scope, index[scope].insert(name))
    } else {
        index.insert(scope, set![name])
    }
}

/// The set of the names held in a list of strings.
pub open spec fn name_set(v: Seq<String>) -> Set<Seq<char>> {
    strings_view(v).to_set()
}

impl Store {
    /// The module paths in the order in which they are kept.
    pub open spec fn path_seq(&self) -> Seq<Seq<Seq<char>>> {
        self.modpaths@.map_values(|p: ModPath| p@)
    }

    /// The set of known module paths.
    pub open spec fn modpath_set(&self) -> Set<Seq<Seq<char>>> {
        self.path_seq().to_set()
    }

    pub open spec fn function_index(&self) -> Map<Seq<Seq<char>>, Set<Seq<char>>> {
        index_of(self.functions@)
    }

    pub open spec fn struct_index(&self) -> Map<Seq<Seq<char>>, Set<Seq<char>>> {
        index_of(self.structs@)
    }

    /// Each module path is kept once.
    pub open spec fn wf(&self) -> bool {
        self.path_seq().no_duplicates()
    }

    /// An empty store rooted at `path`.
    pub fn new(path: String) -> (r: Store)
        ensures
            r.wf(),
            r.name@.len() == 0,
            r.path@ == path@,
            r.documents@.len() == 0,
            r.modpath_set() == Set::<Seq<Seq<char>>>::empty(),
            r.function_index() == Map::<Seq<Seq<char>>, Set<Seq<char>>>::empty(),
            r.struct_index() == Map::<Seq<Seq<char>>, Set<Seq<char>>>::empty(),
    {
        let r = Store {
            name: String::new(),
            path,
            documents: Vec::new(),
            modpaths: Vec::new(),
            functions: Vec::new(),
            structs: Vec::new(),
        };
        assert(r.path_seq() =~= Seq::<Seq<Seq<char>>>::empty());
        assert(r.modpath_set() =~= Set::<Seq<Seq<char>>>::empty());
        assert(r.function_index() =~= Map::<Seq<Seq<char>>, Set<Seq<char>>>::empty());
        assert(r.struct_index() =~= Map::<Seq<Seq<char>>, Set<Seq<char>>>::empty());
        r
    }
}

proof fn lemma_scope_step(entries: Seq<ScopedName>, i: int, scope: Seq<Seq<char>>)
    requires
        0 <= i < entries.len(),
    ensures
        entries[i].scope@ == scope ==> scope_known(entries.subrange(0, i + 1), scope),
        entries[i].scope@ == scope ==> scope_names(entries.subrange(0, i + 1), scope) == scope_names(
            entries.subrange(0, i),
            scope,
        ).insert(entries[i].name@),
        entries[i].scope@ != scope ==> (scope_known(entries.subrange(0, i + 1), scope)
            <==> scope_known(entries.subrange(0, i), scope)),
        entries[i].scope@ != scope ==> scope_names(entries.subrange(0, i + 1), scope)
            == scope_names(entries.subrange(0, i), scope),
{
    let prev = entries.subrange(0, i);
    let next = entries.subrange(0, i + 1);
    assert(next[i] == entries[i]);
    assert forall|j: int| 0 <= j < i implies #[trigger] next[j] == prev[j] by {}
    if scope_known(next, scope) && entries[i].scope@ != scope {
        let j = choose|j: int| 0 <= j < next.len() && (#[trigger] next[j]).scope@ == scope;
        assert(prev[j] == next[j]);
    }
    if scope_known(prev, scope) {
        let j = choose|j: int| 0 <= j < prev.len() && (#[trigger] prev[j]).scope@ == scope;
        assert(prev[j] == next[j]);
    }
    let target = if entries[i].scope@ == scope {
        scope_names(prev, scope).insert(entries[i].name@)
    } else {
        scope_names(prev, scope)
    };
    assert forall|n: Seq<char>| scope_names(next, scope).contains(n) implies target.contains(n) by {
        let j = choose|j: int|
            0 <= j < next.len() && (#[trigger] next[j]).scope@ == scope && next[j].name@ == n;
        if j < i {
            assert(prev[j] == next[j]);
        }
    }
    assert forall|n: Seq<char>| target.contains(n) implies scope_names(next, scope).contains(n) by {
        if scope_names(prev, scope).contains(n) {
            let j = choose|j: int|
                0 <= j < prev.len() && (#[trigger] prev[j]).scope@ == scope && prev[j].name@ == n;
            assert(prev[j] == next[j]);
        } else {
            assert(next[i].name@ == n);
        }
    }
    assert(scope_names(next, scope) =~= target);
    assert(entries[i].scope@ == scope ==> next[i].scope@ == scope);
}

/// The names recorded under `scope`, or `None` where the scope was never indexed.
fn lookup_names(entries: &Vec<ScopedName>, scope: &ModPath) -> (r: Option<Vec<String>>)
    ensures
        r is None <==> !index_of(entries@).contains_key(scope@),
        r matches Some(v) ==> name_set(v@) == index_of(entries@)[scope@],
{
    let mut found = false;
    let mut names: Vec<String> = Vec::new();
    let mut i: usize = 0;
    while i < entries.len()
        invariant
            i <= entries.len(),
            found <==> scope_known(entries@.subrange(0, i as int), scope@),
            name_set(names@) == scope_names(entries@.subrange(0, i as int), scope@),
        decreases entries.len() - i,
    {
        let ghost prev = entries@.subrange(0, i as int);
        let ghost next = entries@.subrange(0, i + 1);
        let ghost old_names = names@;
        let e = &entries[i];
        let hit = e.scope.same_as(scope);
        if hit {
            found = true;
            names.push(e.name.clone());
        }
        proof {
            lemma_scope_step(entries@, i as int, scope@);
            if hit {
                assert(strings_view(names@) =~= strings_view(old_names).push(e.name@));
                strings_view(old_names).lemma_push_to_set_commute(e.name@);
            }
        }
        i = i + 1;
    }
    assert(entries@.subrange(0, entries.len() as int) =~= entries@);
    if found {
        Some(names)
    } else {
        None
    }
}

proof fn lemma_index_push(entries: Seq<ScopedName>, e: ScopedName)
    ensures
        index_of(entries.push(e)) == index_add(index_of(entries), e.scope@, e.name@),
{
    let next = entries.push(e);
    let i = entries.len() as int;
    assert(next.subrange(0, i + 1) =~= next);
    assert(next.subrange(0, i) =~= entries);
    let lhs = index_of(next);
    let rhs = index_add(index_of(entries), e.scope@, e.name@);
    assert forall|k: Seq<Seq<char>>| #[trigger] lhs.contains_key(k) <==> rhs.contains_key(k) by {
        lemma_scope_step(next, i, k);
    }
    assert forall|k: Seq<Seq<char>>| lhs.contains_key(k) implies lhs[k] == rhs[k] by {
        lemma_scope_step(next, i, k);
        if k == e.scope@ && !scope_known(entries, k) {
            assert(scope_names(entries, k) =~= Set::<Seq<char>>::empty());
            assert(scope_names(entries, k).insert(e.name@) =~= set![e.name@]);
        }
    }
    assert(lhs =~= rhs);
}

/// The index after recording each (scope, name) pair of `ops` in order.
pub open spec fn index_after(
    index: Map<Seq<Seq<char>>, Set<Seq<char>>>,
    ops: Seq<(Seq<Seq<char>>, Seq<char>)>,
) -> Map<Seq<Seq<char>>, Set<Seq<char>>>
    decreases ops.len(),
{
    if ops.len() == 0 {
        index
    } else {
        index_add(index_after(index, ops.drop_last()), ops.last().0, ops.last().1)
    }
}

/// A scope that no insertion named is absent from an index that started
/// empty: "unknown" is never reported as "known with no names".
pub proof fn unindexed_scope_absent(ops: Seq<(Seq<Seq<char>>, Seq<char>)>, scope: Seq<Seq<char>>)
    requires
        forall|j: int| 0 <= j < ops.len() ==> (#[trigger] ops[j]).0 != scope,
    ensures
        !index_after(Map::empty(), ops).contains_key(scope),
    decreases ops.len(),
{
    if ops.len() > 0 {
        let prev = ops.drop_last();
        assert forall|j: int| 0 <= j < prev.len() implies (#[trigger] prev[j]).0 != scope by {
            assert(prev[j] == ops[j]);
        }
        unindexed_scope_absent(prev, scope);
        assert(ops[ops.len() - 1].0 != scope);
    }
}

/// The set of module paths that a cache text reads back as.
pub open spec fn cache_loaded(json: Seq<char>, paths: Set<Seq<Seq<char>>>) -> bool {
    forall|p: Seq<Seq<Seq<char>>>| #[trigger] json_of_paths(p) == json ==> paths == p.to_set()
}

/// The strict ancestors of a module path: its prefixes of at least one segment.
pub open spec fn ancestors(p: Seq<Seq<char>>) -> Set<Seq<Seq<char>>> {
    Set::new(|q: Seq<Seq<char>>| exists|k: int| 1 <= k < p.len() && q == p.subrange(0, k))
}

impl Store {
    /// The function names recorded under `scope`, or `None` where the scope
    /// was never indexed.
    pub fn get_functions(&self, scope: &ModPath) -> (r: Option<Vec<String>>)
        ensures
            r is None <==> !self.function_index().contains_key(scope@),
            r matches Some(v) ==> name_set(v@) == self.function_index()[scope@],
    {
        lookup_names(&self.functions, scope)
    }

    /// The struct names recorded under `scope`, or `None` where the scope
    /// was never indexed.
    pub fn get_structs(&self, scope: &ModPath) -> (r: Option<Vec<String>>)
        ensures
            r is None <==> !self.struct_index().contains_key(scope@),
            r matches Some(v) ==> name_set(v@) == self.struct_index()[scope@],
    {
        lookup_names(&self.structs, scope)
    }

    /// Records a function name under a scope.
    pub fn add_function(&mut self, scope: &ModPath, name: &String)
        ensures
            final(self).function_index() == index_add(old(self).function_index(), scope@, name@),
            final(self).struct_index() == old(self).struct_index(),
            final(self).modpaths@ == old(self).modpaths@,
            final(self).documents@ == old(self).documents@,
    {
        let e = ScopedName { scope: scope.copy(), name: name.clone() };
        proof {
            lemma_index_push(self.functions@, e);
        }
        self.functions.push(e);
    }

    /// Records a struct name under a scope.
    pub fn add_struct(&mut self, scope: &ModPath, name: &String)
        ensures
            final(self).struct_index() == index_add(old(self).struct_index(), scope@, name@),
            final(self).function_index() == old(self).function_index(),
            final(self).modpaths@ == old(self).modpaths@,
            final(self).documents@ == old(self).documents@,
    {
        let e = ScopedName { scope: scope.copy(), name: name.clone() };
        proof {
            lemma_index_push(self.structs@, e);
        }
        self.structs.push(e);
    }

    /// The known module paths, each once.
    pub fn get_modpaths(&self) -> (r: &Vec<ModPath>)
        ensures
            r@ == self.modpaths@,
            r@.map_values(|p: ModPath| p@).to_set() == self.modpath_set(),
    {
        &self.modpaths
    }

    /// Whether `scope` is a known module path.
    pub fn has_modpath(&self, scope: &ModPath) -> (r: bool)
        ensures
            r == self.modpath_set().contains(scope@),
    {
        let mut i: usize = 0;
        while i < self.modpaths.len()
            invariant
                i <= self.modpaths.len(),
                forall|j: int| 0 <= j < i ==> self.path_seq()[j] != scope@,
            decreases self.modpaths.len() - i,
        {
            if self.modpaths[i].same_as(scope) {
                assert(self.path_seq()[i as int] == scope@);
                return true;
            }
            i = i + 1;
        }
        assert(!self.path_seq().contains(scope@));
        false
    }

    /// Adds a module path to the known module paths.
    pub fn add_modpath(&mut self, scope: ModPath)
        requires
            old(self).wf(),
        ensures
            final(self).wf(),
            final(self).modpath_set() == old(self).modpath_set().insert(scope@),
            final(self).function_index() == old(self).function_index(),
            final(self).struct_index() == old(self).struct_index(),
            final(self).documents@ == old(self).documents@,
    {
        if !self.has_modpath(&scope) {
            let ghost before = self.path_seq();
            self.modpaths.push(scope);
            proof {
                assert(self.path_seq() =~= before.push(scope@));
                before.lemma_push_to_set_commute(scope@);
            }
        } else {
            assert(old(self).modpath_set().insert(scope@) =~= old(self).modpath_set());
        }
    }

    /// Adds every strict ancestor of `scope` to the known module paths.
    pub fn add_all_modpaths(&mut self, scope: &ModPath)
        requires
            old(self).wf(),
        ensures
            final(self).wf(),
            final(self).modpath_set() == old(self).modpath_set().union(ancestors(scope@)),
            final(self).documents@ == old(self).documents@,
    {
        let mut parent = scope.parent();
        let ghost mut k: int = scope@.len() - 1;
        while parent.is_some()
            invariant
                self.wf(),
                self.documents@ == old(self).documents@,
                k < scope@.len(),
                parent is Some ==> k >= 1 && parent->Some_0@ == scope@.subrange(0, k),
                parent is None ==> k <= 0,
                self.modpath_set() == old(self).modpath_set().union(
                    Set::new(|q: Seq<Seq<char>>| exists|j: int| k < j < scope@.len() && j >= 1 && q == scope@.subrange(0, j)),
                ),
            decreases k + 1,
        {
            let path = parent.unwrap();
            parent = path.parent();
            let ghost pv = path@;
            let ghost before = self.modpath_set();
            self.add_modpath(path);
            proof {
                let old_set = Set::new(|q: Seq<Seq<char>>| exists|j: int| k < j < scope@.len() && j >= 1 && q == scope@.subrange(0, j));
                let new_set = Set::new(|q: Seq<Seq<char>>| exists|j: int| k - 1 < j < scope@.len() && j >= 1 && q == scope@.subrange(0, j));
                assert(pv == scope@.subrange(0, k));
                assert(new_set =~= old_set.insert(pv)) by {
                    assert forall|q: Seq<Seq<char>>| new_set.contains(q) implies old_set.insert(pv).contains(q) by {
                        let j = choose|j: int| k - 1 < j < scope@.len() && j >= 1 && q == scope@.subrange(0, j);
                        if j != k {
                            assert(old_set.contains(q));
                        }
                    }
                    assert(new_set.contains(pv));
                }
                assert(self.modpath_set() =~= old(self).modpath_set().union(new_set));
                if parent is Some {
                    assert(parent->Some_0@ =~= pv.drop_last());
                    assert(pv.drop_last() =~= scope@.subrange(0, k - 1));
                }
                k = k - 1;
            }
        }
        proof {
            let rest = Set::new(|q: Seq<Seq<char>>| exists|j: int| k < j < scope@.len() && j >= 1 && q == scope@.subrange(0, j));
            assert(rest =~= ancestors(scope@));
        }
    }

    /// The record whose module path is `doc_path`, or `NotFound`.
    pub fn load_doc(&self, doc_path: &ModPath) -> (r: Result<&Documentation, StoreError>)
        ensures
            r is Err <==> forall|j: int|
                0 <= j < self.documents@.len() ==> (#[trigger] self.documents@[j]).mod_path@
                    != doc_path@,
            r is Err ==> r == Err::<&Documentation, StoreError>(StoreError::NotFound),
            r matches Ok(d) ==> exists|j: int|
                0 <= j < self.documents@.len() && *d == #[trigger] self.documents@[j]
                    && d.mod_path@ == doc_path@,
    {
        let mut i: usize = 0;
        while i < self.documents.len()
            invariant
                i <= self.documents.len(),
                forall|j: int| 0 <= j < i ==> (#[trigger] self.documents@[j]).mod_path@ != doc_path@,
            decreases self.documents.len() - i,
        {
            if self.documents[i].mod_path.same_as(doc_path) {
                return Ok(&self.documents[i]);
            }
            i = i + 1;
        }
        Err(StoreError::NotFound)
    }

    /// The cache text of this store: its module paths as JSON.
    pub fn save_cache(&self) -> (r: String)
        ensures
            r@ == json_of_paths(self.path_seq()),
    {
        let mut paths: Vec<Vec<String>> = Vec::new();
        let mut i: usize = 0;
        while i < self.modpaths.len()
            invariant
                i <= self.modpaths.len(),
                nested_view(paths@) == self.path_seq().subrange(0, i as int),
            decreases self.modpaths.len() - i,
        {
            let ghost before = paths@;
            paths.push(copy_strings(&self.modpaths[i].segments));
            assert(nested_view(paths@) =~= nested_view(before).push(self.path_seq()[i as int]));
            assert(nested_view(paths@) =~= self.path_seq().subrange(0, i + 1));
            i = i + 1;
        }
        assert(nested_view(paths@) =~= self.path_seq());
        paths_to_json(&paths)
    }

    /// Replaces the known module paths with those that the cache text `json`
    /// holds. Text that is not a list of module paths gives `CacheCorrupt`
    /// and leaves the set empty.
    pub fn load_cache(&mut self, json: &str) -> (r: Result<(), StoreError>)
        ensures
            final(self).wf(),
            (exists|p: Seq<Seq<Seq<char>>>| #[trigger] json_of_paths(p) == json@) ==> r is Ok,
            r is Ok ==> cache_loaded(json@, final(self).modpath_set()),
            r is Err ==> r == Err::<(), StoreError>(StoreError::CacheCorrupt)
                && final(self).modpath_set() == Set::<Seq<Seq<char>>>::empty(),
            final(self).function_index() == old(self).function_index(),
            final(self).struct_index() == old(self).struct_index(),
            final(self).documents@ == old(self).documents@,
    {
        self.modpaths = Vec::new();
        proof {
            assert(self.path_seq() =~= Seq::<Seq<Seq<char>>>::empty());
            assert(self.modpath_set() =~= Set::<Seq<Seq<char>>>::empty());
        }
        match paths_from_json(json) {
            Ok(paths) => {
                let mut i: usize = 0;
                while i < paths.len()
                    invariant
                        i <= paths.len(),
                        self.wf(),
                        self.modpath_set() == nested_view(paths@).subrange(0, i as int).to_set(),
                        self.function_index() == old(self).function_index(),
                        self.struct_index() == old(self).struct_index(),
                        self.documents@ == old(self).documents@,
                    decreases paths.len() - i,
                {
                    let ghost seen = nested_view(paths@).subrange(0, i as int);
                    self.add_modpath(ModPath::new(copy_strings(&paths[i])));
                    proof {
                        assert(nested_view(paths@).subrange(0, i + 1) =~= seen.push(strings_view(paths@[i as int]@)));
                        seen.lemma_push_to_set_commute(strings_view(paths@[i as int]@));
                    }
                    i = i + 1;
                }
                proof {
                    assert(nested_view(paths@).subrange(0, paths.len() as int) =~= nested_view(paths@));
                    assert forall|p: Seq<Seq<Seq<char>>>| #[trigger] json_of_paths(p) == json@ implies self.modpath_set() == p.to_set() by {
                        assert(nested_view(paths@) == p);
                    }
                }
                Ok(())
            },
            Err(_) => Err(StoreError::CacheCorrupt),
        }
    }
}

/// Saving the cache and loading it back gives the same set of module paths,
/// the empty set included.
pub proof fn cache_round_trip(s: Store, loaded: Set<Seq<Seq<char>>>)
    requires
        s.wf(),
        cache_loaded(json_of_paths(s.path_seq()), loaded),
    ensures
        loaded == s.modpath_set(),
{
    assert(json_of_paths(s.path_seq()) == json_of_paths(s.path_seq()));
}

} // verus!
