use vstd::prelude::*;

use crate::import::{
    candidates, is_first_found, lemma_candidates_shape, published, resolve_step, search_dirs,
    Source,
};
use crate::registry::{has_key, has_name, Runtime};
use crate::text::{dots_to_slashes, join_path};

verus! {

/// Once a load has published a module under `name` (as `import_builtin` and
/// `import_file` do), resolving `name` again goes to the cache and yields
/// that very instance: nothing is built, compiled or run a second time.
pub proof fn lemma_resolve_idempotent(
    before: Runtime,
    after: Runtime,
    name: Seq<char>,
    file: Option<Seq<char>>,
)
    requires
        published(before, after, name, file),
    ensures
        resolve_step(after, name) == Source::Cache(before.modules@.len() as usize),
{
}

/// A name in the cache resolves to what the cache maps it to.
pub proof fn lemma_cached_first(vm: Runtime, name: Seq<char>, id: usize)
    requires
        vm.cached(name) == Some(id),
    ensures
        resolve_step(vm, name) == Source::Cache(id),
{
}

/// Cycle safety. The module `a` is published (step 0 to 1) before its body
/// runs; while it runs, other modules are loaded, each published under
/// another name (step `i` to `i + 1`). Through the whole chain `a` keeps its
/// instance, unchanged, and resolving `a` from any later state, as a body
/// that imports it back does, goes to the cache and gets that same instance.
pub proof fn lemma_cycle_safe(
    a: Seq<char>,
    states: Seq<Runtime>,
    names: Seq<Seq<char>>,
    files: Seq<Option<Seq<char>>>,
    file_a: Option<Seq<char>>,
    k: int,
)
    requires
        states.len() >= 2,
        names.len() == states.len(),
        files.len() == states.len(),
        published(states[0], states[1], a, file_a),
        forall|i: int|
            1 <= i < states.len() - 1 ==> names[i] != a && published(
                #[trigger] states[i],
                states[i + 1],
                names[i],
                files[i],
            ),
        1 <= k < states.len(),
    ensures
        resolve_step(states[k], a) == Source::Cache(states[0].modules@.len() as usize),
        states[0].modules@.len() < states[k].modules@.len(),
        states[k].modules@[states[0].modules@.len() as int] == states[1].modules@[states[0].modules@.len() as int],
    decreases k,
{
    let id = states[0].modules@.len() as int;
    if k > 1 {
        lemma_cycle_safe(a, states, names, files, file_a, k - 1);
        let p = states[k - 1];
        let q = states[k];
        assert(published(p, q, names[k - 1], files[k - 1]));
        assert(q.modules@.subrange(0, p.modules@.len() as int)[id] == q.modules@[id]);
    }
}

/// A frozen name that the cache does not hold resolves to its frozen source;
/// the filesystem is not consulted, whatever files exist.
pub proof fn lemma_frozen_before_files(vm: Runtime, name: Seq<char>)
    requires
        vm.cached(name) is None,
        has_key(vm.frozen@, name),
    ensures
        resolve_step(vm, name) == Source::Frozen,
{
}

/// A name in none of the cache, the frozen table and the builtin table goes
/// to the filesystem search, which fails with `ModuleNotFound` when no
/// candidate exists (see `find_source`).
pub proof fn lemma_unknown_goes_to_files(vm: Runtime, name: Seq<char>)
    requires
        vm.cached(name) is None,
        !has_key(vm.frozen@, name),
        !has_name(vm.builtins@, name),
    ensures
        resolve_step(vm, name) == Source::Filesystem,
{
}

/// The current directory comes first: when one of its two files exists, the
/// file found is that one (the plain module if both), whatever the search
/// path holds.
pub proof fn lemma_current_dir_first(
    current: Seq<char>,
    path: Seq<String>,
    name: Seq<char>,
    exists: Seq<bool>,
    i: int,
)
    requires
        exists.len() == candidates(current, path, name).len(),
        is_first_found(exists, i),
        exists[0] || exists[1],
    ensures
        candidates(current, path, name)[i] == if exists[0] {
            join_path(current, dots_to_slashes(name) + ".py"@)
        } else {
            join_path(current, dots_to_slashes(name) + "/__init__.py"@)
        },
{
    let dirs = search_dirs(current, path);
    lemma_candidates_shape(dirs, dots_to_slashes(name));
    assert(dirs[0] == current);
    if !exists[0] {
        assert(i >= 1);
    }
}

/// Within one directory the plain module `<name>.py` comes before the
/// package `<name>/__init__.py`: where both exist in the `d`-th directory
/// searched and nothing earlier does, the plain module is found.
pub proof fn lemma_module_before_package(
    current: Seq<char>,
    path: Seq<String>,
    name: Seq<char>,
    exists: Seq<bool>,
    i: int,
    d: int,
)
    requires
        exists.len() == candidates(current, path, name).len(),
        is_first_found(exists, i),
        0 <= d <= path.len(),
        exists[2 * d],
        exists[2 * d + 1],
        forall|j: int| 0 <= j < 2 * d ==> !#[trigger] exists[j],
    ensures
        i == 2 * d,
        candidates(current, path, name)[i] == join_path(
            search_dirs(current, path)[d],
            dots_to_slashes(name) + ".py"@,
        ),
{
    let dirs = search_dirs(current, path);
    lemma_candidates_shape(dirs, dots_to_slashes(name));
}

} // verus!
