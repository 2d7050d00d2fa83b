use vstd::prelude::*;

verus! {

/// A module instance: its name and, where it came from a real file, that
/// file's path (its `__name__` and `__file__`). Its identity is its index in
/// `Runtime::modules`.
pub struct Module {
    pub name: String,
    pub file: Option<String>,
}

/// The callable that later imports go through.
#[derive(PartialEq, Eq, Structural, Clone, Copy, Debug)]
pub enum ImportHook {
    /// The loader of this library, called directly.
    Native,
    /// The `__import__` of the module with this identity.
    Hosted(usize),
}

/// The state one runtime instance owns for importing.
pub struct Runtime {
    /// Every module instance made so far; a module is never destroyed.
    pub modules: Vec<Module>,
    /// The module cache: name to module identity, one entry per name.
    pub sys_modules: Vec<(String, usize)>,
    /// Embedded sources: module name and source text.
    pub frozen: Vec<(String, String)>,
    /// Names of the modules that a native factory builds.
    pub builtins: Vec<String>,
    /// The search path, without the current directory.
    pub path: Vec<String>,
    /// The hook that later imports go through.
    pub import_func: ImportHook,
    /// Whether filesystem importers have been installed.
    pub external_importers: bool,
}

/// What the cache maps `name` to: the last entry under that name.
pub open spec fn lookup_in(entries: Seq<(String, usize)>, name: Seq<char>) -> Option<usize>
    decreases entries.len(),
{
    if entries.len() == 0 {
        None
    } else if entries.last().0@ == name {
        Some(entries.last().1)
    } else {
        lookup_in(entries.drop_last(), name)
    }
}

/// Whether `name` is one of the keys of a table of pairs.
pub open spec fn has_key<V>(entries: Seq<(String, V)>, name: Seq<char>) -> bool {
    exists|i: int| 0 <= i < entries.len() && #[trigger] entries[i].0@ == name
}

/// The value stored under `name` in a table of pairs: the first entry wins.
pub open spec fn value_of<V>(entries: Seq<(String, V)>, name: Seq<char>) -> V
    decreases entries.len(),
{
    if entries.len() == 0 {
        arbitrary()
    } else if entries[0].0@ == name {
        entries[0].1
    } else {
        value_of(entries.drop_first(), name)
    }
}

/// No name is the key of two entries.
pub open spec fn unique_keys<V>(entries: Seq<(String, V)>) -> bool {
    forall|i: int, j: int|
        0 <= i < j < entries.len() ==> #[trigger] entries[i].0@ != #[trigger] entries[j].0@
}

/// No name stands twice.
pub open spec fn unique_names(names: Seq<String>) -> bool {
    forall|i: int, j: int| 0 <= i < j < names.len() ==> #[trigger] names[i]@ != #[trigger] names[j]@
}

/// Whether `name` is one of the names in `names`.
pub open spec fn has_name(names: Seq<String>, name: Seq<char>) -> bool {
    exists|i: int| 0 <= i < names.len() && #[trigger] names[i]@ == name
}

proof fn lemma_lookup_update(entries: Seq<(String, usize)>, i: int, e: (String, usize), k: Seq<char>)
    requires
        0 <= i < entries.len(),
        entries[i].0@ == e.0@,
        forall|j: int| i < j < entries.len() ==> #[trigger] entries[j].0@ != e.0@,
    ensures
        lookup_in(entries.update(i, e), k) == if k == e.0@ {
            Some(e.1)
        } else {
            lookup_in(entries, k)
        },
    decreases entries.len(),
{
    let u = entries.update(i, e);
    if i == entries.len() - 1 {
        assert(u.drop_last() =~= entries.drop_last());
    } else {
        assert(u.drop_last() =~= entries.drop_last().update(i, e));
        lemma_lookup_update(entries.drop_last(), i, e, k);
    }
}

proof fn lemma_lookup_absent(entries: Seq<(String, usize)>, name: Seq<char>)
    requires
        forall|j: int| 0 <= j < entries.len() ==> #[trigger] entries[j].0@ != name,
    ensures
        lookup_in(entries, name) == None::<usize>,
    decreases entries.len(),
{
    if entries.len() > 0 {
        let d = entries.drop_last();
        assert forall|j: int| 0 <= j < d.len() implies #[trigger] d[j].0@ != name by {
            assert(d[j] == entries[j]);
        }
        lemma_lookup_absent(d, name);
    }
}

impl Runtime {
    /// Every identity in the cache names a module that exists, and no name
    /// has two entries in the cache, the frozen table or the builtin table.
    pub open spec fn wf(&self) -> bool {
        &&& forall|i: int|
            0 <= i < self.sys_modules@.len() ==> #[trigger] self.sys_modules@[i].1
                < self.modules@.len()
        &&& unique_keys(self.sys_modules@)
        &&& unique_keys(self.frozen@)
        &&& unique_names(self.builtins@)
    }

    /// What the cache maps `name` to.
    pub open spec fn cached(&self, name: Seq<char>) -> Option<usize> {
        lookup_in(self.sys_modules@, name)
    }

    /// A runtime with the given tables, an empty cache and the native hook.
    pub fn new(frozen: Vec<(String, String)>, builtins: Vec<String>, path: Vec<String>) -> (r:
        Runtime)
        requires
            unique_keys(frozen@),
            unique_names(builtins@),
        ensures
            r.wf(),
            r.modules@.len() == 0,
            r.sys_modules@.len() == 0,
            r.frozen == frozen,
            r.builtins == builtins,
            r.path == path,
            r.import_func == ImportHook::Native,
            !r.external_importers,
    {
        Runtime {
            modules: Vec::new(),
            sys_modules: Vec::new(),
            frozen,
            builtins,
            path,
            import_func: ImportHook::Native,
            external_importers: false,
        }
    }

    /// Looks `name` up in the module cache.
    pub fn lookup(&self, name: &str) -> (r: Option<usize>)
        requires
            self.wf(),
        ensures
            r == self.cached(name@),
            r matches Some(id) ==> id < self.modules@.len(),
    {
        let mut i = self.sys_modules.len();
        assert(self.sys_modules@.subrange(0, i as int) =~= self.sys_modules@);
        while i > 0
            invariant
                i <= self.sys_modules@.len(),
                self.wf(),
                self.cached(name@) == lookup_in(self.sys_modules@.subrange(0, i as int), name@),
            decreases i,
        {
            let ghost s = self.sys_modules@.subrange(0, i as int);
            let key = String::from_str(name);
            if self.sys_modules[i - 1].0 == key {
                return Some(self.sys_modules[i - 1].1);
            }
            assert(s.drop_last() =~= self.sys_modules@.subrange(0, i - 1));
            i = i - 1;
        }
        None
    }

    /// Maps `name` to the module `id` in the cache, replacing what it mapped
    /// to before.
    pub fn register(&mut self, name: &str, id: usize)
        requires
            old(self).wf(),
            id < old(self).modules@.len(),
        ensures
            final(self).wf(),
            final(self).modules == old(self).modules,
            final(self).frozen == old(self).frozen,
            final(self).builtins == old(self).builtins,
            final(self).path == old(self).path,
            final(self).import_func == old(self).import_func,
            final(self).external_importers == old(self).external_importers,
            forall|k: Seq<char>|
                #![auto]
                final(self).cached(k) == if k == name@ {
                    Some(id)
                } else {
                    old(self).cached(k)
                },
    {
        let mut i = self.sys_modules.len();
        while i > 0
            invariant
                i <= self.sys_modules@.len(),
                self == old(self),
                old(self).wf(),
                id < old(self).modules@.len(),
                forall|j: int|
                    i <= j < self.sys_modules@.len() ==> #[trigger] self.sys_modules@[j].0@
                        != name@,
            decreases i,
        {
            let key = String::from_str(name);
            if self.sys_modules[i - 1].0 == key {
                let e = (key, id);
                proof {
                    assert forall|k: Seq<char>| #![auto]
                        lookup_in(self.sys_modules@.update(i - 1, e), k) == if k == name@ {
                            Some(id)
                        } else {
                            lookup_in(self.sys_modules@, k)
                        } by {
                        lemma_lookup_update(self.sys_modules@, i - 1, e, k);
                    }
                }
                self.sys_modules.set(i - 1, e);
                assert forall|a: int, b: int|
                    0 <= a < b < self.sys_modules@.len() implies #[trigger] self.sys_modules@[a].0@
                        != #[trigger] self.sys_modules@[b].0@ by {
                    assert(old(self).sys_modules@[a].0@ != old(self).sys_modules@[b].0@);
                }
                assert forall|j: int| 0 <= j < self.sys_modules@.len() implies #[trigger]
                    self.sys_modules@[j].1 < self.modules@.len() by {
                    if j != i - 1 {
                        assert(self.sys_modules@[j] == old(self).sys_modules@[j]);
                    }
                }
                return ;
            }
            i = i - 1;
        }
        proof {
            lemma_lookup_absent(self.sys_modules@, name@);
        }
        let e = (String::from_str(name), id);
        let ghost before = self.sys_modules@;
        self.sys_modules.push(e);
        assert(self.sys_modules@.drop_last() =~= before);
        assert forall|a: int, b: int|
            0 <= a < b < self.sys_modules@.len() implies #[trigger] self.sys_modules@[a].0@
                != #[trigger] self.sys_modules@[b].0@ by {
            if b < before.len() {
                assert(old(self).sys_modules@[a].0@ != old(self).sys_modules@[b].0@);
            } else {
                assert(before[a].0@ != name@);
            }
        }
        assert forall|j: int| 0 <= j < self.sys_modules@.len() implies #[trigger]
            self.sys_modules@[j].1 < self.modules@.len() by {
            if j < before.len() {
                assert(self.sys_modules@[j] == before[j]);
            }
        }
    }
}

} // verus!
