use vstd::prelude::*;

use crate::registry::{has_key, has_name, value_of, Module, Runtime};
use crate::text::{dots_to_slashes, join, join_path, replace_dots};

verus! {

/// Why compiling a source failed.
#[derive(PartialEq, Eq, Debug)]
pub enum CompileError {
    /// The input ended inside an unfinished statement.
    Incomplete,
    /// Any other parse error, with its message.
    Parse(String),
    /// An error after parsing, with its message.
    Compile(String),
}

/// Why an import failed.
#[derive(PartialEq, Eq, Debug)]
pub enum ImportFailure {
    /// No source has the module; the message names it.
    ModuleNotFound(String),
    /// The source could not be read, or the name is not in the table asked.
    ImportError(String),
    /// The source does not compile.
    SyntaxError(CompileError),
}

/// A source to compile in whole-module mode, with the path it is labelled by.
pub struct SourceUnit {
    pub label: String,
    pub source: String,
}

/// A compiled module body to run, in the namespace of the module `module`.
pub struct Execute<C> {
    pub module: usize,
    pub code: C,
}

/// What resolving a module name asks for next.
pub enum Resolution {
    /// The cache holds the module: here it is.
    Cached(usize),
    /// The name is frozen: compile this source, then call `import_file`.
    Compile(SourceUnit),
    /// A native factory built the module, now in the cache.
    Builtin(usize),
    /// Look for the first of these files that exists (see `find_source`).
    Search(Vec<String>),
}

/// Where the resolution of a name goes, in order of precedence.
pub enum Source {
    Cache(usize),
    Frozen,
    Builtin,
    Filesystem,
}

/// The path label of a frozen module.
pub open spec fn frozen_label(name: Seq<char>) -> Seq<char> {
    "frozen "@ + name
}

/// The message of a failed filesystem search.
pub open spec fn not_found_message(name: Seq<char>) -> Seq<char> {
    "No module named '"@ + name + "'"@
}

/// The message for a name that is not in the frozen table.
pub open spec fn not_frozen_message(name: Seq<char>) -> Seq<char> {
    "Cannot import frozen module "@ + name
}

/// The message for a name that is not in the builtin table.
pub open spec fn not_builtin_message(name: Seq<char>) -> Seq<char> {
    "Cannot import bultin module "@ + name
}

/// The source that resolving `name` goes to.
pub open spec fn resolve_step(vm: Runtime, name: Seq<char>) -> Source {
    match vm.cached(name) {
        Some(id) => Source::Cache(id),
        None => if has_key(vm.frozen@, name) {
            Source::Frozen
        } else if has_name(vm.builtins@, name) {
            Source::Builtin
        } else {
            Source::Filesystem
        },
    }
}

/// The two files tried in one directory: the module, then the package.
pub open spec fn dir_candidates(dir: Seq<char>, rel: Seq<char>) -> Seq<Seq<char>> {
    seq![join_path(dir, rel + ".py"@), join_path(dir, rel + "/__init__.py"@)]
}

/// The files tried in the directories `dirs`, in order.
pub open spec fn search_candidates(dirs: Seq<Seq<char>>, rel: Seq<char>) -> Seq<Seq<char>>
    decreases dirs.len(),
{
    if dirs.len() == 0 {
        seq![]
    } else {
        search_candidates(dirs.drop_last(), rel) + dir_candidates(dirs.last(), rel)
    }
}

/// The directories searched: the current one, then the search path.
pub open spec fn search_dirs(current: Seq<char>, path: Seq<String>) -> Seq<Seq<char>> {
    seq![current] + path.map_values(|s: String| s@)
}

/// The files tried for `name`, in order.
pub open spec fn candidates(current: Seq<char>, path: Seq<String>, name: Seq<char>) -> Seq<
    Seq<char>,
> {
    search_candidates(search_dirs(current, path), dots_to_slashes(name))
}

/// `i` is the first index whose file exists.
pub open spec fn is_first_found(exists: Seq<bool>, i: int) -> bool {
    &&& 0 <= i < exists.len()
    &&& exists[i]
    &&& forall|j: int| 0 <= j < i ==> !#[trigger] exists[j]
}

/// The view of a list of strings.
pub open spec fn views(v: Seq<String>) -> Seq<Seq<char>> {
    v.map_values(|s: String| s@)
}

/// The module `m` has the name `name` and the file `file`.
pub open spec fn module_is(m: Module, name: Seq<char>, file: Option<Seq<char>>) -> bool {
    &&& m.name@ == name
    &&& match (m.file, file) {
        (None, None) => true,
        (Some(f), Some(g)) => f@ == g,
        _ => false,
    }
}

/// `after` is `before` with one module `m` made and published under `name`.
pub open spec fn published(before: Runtime, after: Runtime, name: Seq<char>, file: Option<
    Seq<char>,
>) -> bool {
    let id = before.modules@.len();
    &&& after.wf()
    &&& after.modules@.len() == id + 1
    &&& after.modules@.subrange(0, id as int) == before.modules@
    &&& module_is(after.modules@[id as int], name, file)
    &&& after.frozen == before.frozen
    &&& after.builtins == before.builtins
    &&& after.path == before.path
    &&& after.import_func == before.import_func
    &&& after.external_importers == before.external_importers
    &&& forall|k: Seq<char>|
        #![auto]
        after.cached(k) == if k == name {
            Some(id as usize)
        } else {
            before.cached(k)
        }
}

pub proof fn lemma_candidates_shape(dirs: Seq<Seq<char>>, rel: Seq<char>)
    ensures
        search_candidates(dirs, rel).len() == 2 * dirs.len(),
        forall|d: int|
            0 <= d < dirs.len() ==> search_candidates(dirs, rel)[2 * d] == join_path(
                #[trigger] dirs[d],
                rel + ".py"@,
            ) && search_candidates(dirs, rel)[2 * d + 1] == join_path(
                dirs[d],
                rel + "/__init__.py"@,
            ),
    decreases dirs.len(),
{
    if dirs.len() > 0 {
        let p = dirs.drop_last();
        lemma_candidates_shape(p, rel);
        assert forall|d: int| 0 <= d < dirs.len() implies search_candidates(dirs, rel)[2 * d]
            == join_path(#[trigger] dirs[d], rel + ".py"@) && search_candidates(dirs, rel)[2 * d
            + 1] == join_path(dirs[d], rel + "/__init__.py"@) by {
            if d < p.len() {
                assert(p[d] == dirs[d]);
            }
        }
    }
}

/// The files tried for `module_name` from `current_path`: for the current
/// directory and then each entry of the search path, the plain module
/// `<name>.py` before the package `<name>/__init__.py`, dots turned into `/`.
pub fn candidate_paths(vm: &Runtime, current_path: &str, module_name: &str) -> (r: Vec<String>)
    ensures
        views(r@) == candidates(current_path@, vm.path@, module_name@),
{
    let rel = replace_dots(module_name);
    let plain = rel.clone().concat(".py");
    let package = rel.concat("/__init__.py");
    let ghost dirs = search_dirs(current_path@, vm.path@);
    let mut r: Vec<String> = Vec::new();
    r.push(join(current_path, plain.as_str()));
    r.push(join(current_path, package.as_str()));
    let ghost s1 = dirs.subrange(0, 1);
    assert(s1.drop_last() =~= Seq::<Seq<char>>::empty());
    assert(s1.last() == current_path@);
    assert(search_candidates(s1.drop_last(), rel@) =~= Seq::<Seq<char>>::empty());
    assert(plain@ == rel@ + ".py"@);
    assert(views(r@) =~= search_candidates(dirs.subrange(0, 1), rel@));
    let mut i: usize = 0;
    while i < vm.path.len()
        invariant
            i <= vm.path@.len(),
            dirs == search_dirs(current_path@, vm.path@),
            plain@ == rel@ + ".py"@,
            package@ == rel@ + "/__init__.py"@,
            rel@ == dots_to_slashes(module_name@),
            views(r@) == search_candidates(dirs.subrange(0, i + 1), rel@),
        decreases vm.path@.len() - i,
    {
        let ghost before = r@;
        r.push(join(vm.path[i].as_str(), plain.as_str()));
        r.push(join(vm.path[i].as_str(), package.as_str()));
        let ghost s = dirs.subrange(0, i + 2);
        assert(s.drop_last() =~= dirs.subrange(0, i + 1));
        assert(s.last() == vm.path@[i as int]@);
        assert(views(r@) =~= views(before) + dir_candidates(s.last(), rel@));
        i = i + 1;
    }
    assert(dirs.subrange(0, i + 1) =~= dirs);
    r
}

/// Picks the first of `candidates` that exists (`exists[i]` tells whether
/// `candidates[i]` does), or fails with `ModuleNotFound` naming the module.
pub fn find_source(candidates: &Vec<String>, exists: &Vec<bool>, module_name: &str) -> (r: Result<
    String,
    ImportFailure,
>)
    requires
        exists@.len() == candidates@.len(),
    ensures
        r is Err <==> forall|j: int| 0 <= j < exists@.len() ==> !#[trigger] exists@[j],
        r matches Ok(p) ==> exists|i: int|
            is_first_found(exists@, i) && p@ == #[trigger] candidates@[i]@,
        r matches Err(e) ==> e matches ImportFailure::ModuleNotFound(m) && m@ == not_found_message(
            module_name@,
        ),
{
    let mut i: usize = 0;
    while i < candidates.len()
        invariant
            exists@.len() == candidates@.len(),
            i <= candidates@.len(),
            forall|j: int| 0 <= j < i ==> !#[trigger] exists@[j],
        decreases candidates@.len() - i,
    {
        if exists[i] {
            let p = candidates[i].clone();
            assert(is_first_found(exists@, i as int) && p@ == candidates@[i as int]@);
            return Ok(p);
        }
        i = i + 1;
    }
    let m = String::from_str("No module named '").concat(module_name).concat("'");
    Err(ImportFailure::ModuleNotFound(m))
}

/// Finds `name` in a table of pairs.
fn find_entry<V>(entries: &Vec<(String, V)>, name: &str) -> (r: Option<usize>)
    ensures
        r is Some <==> has_key(entries@, name@),
        r matches Some(i) ==> i < entries@.len() && entries@[i as int].0@ == name@
            && value_of(entries@, name@) == entries@[i as int].1,
{
    let key = String::from_str(name);
    let mut i: usize = 0;
    assert(entries@.subrange(0, entries@.len() as int) =~= entries@);
    while i < entries.len()
        invariant
            key@ == name@,
            i <= entries@.len(),
            value_of(entries@, name@) == value_of(entries@.subrange(i as int, entries@.len() as int), name@),
            forall|j: int| 0 <= j < i ==> #[trigger] entries@[j].0@ != name@,
        decreases entries@.len() - i,
    {
        let ghost s = entries@.subrange(i as int, entries@.len() as int);
        if entries[i].0 == key {
            return Some(i);
        }
        assert(s.drop_first() =~= entries@.subrange(i + 1, entries@.len() as int));
        i = i + 1;
    }
    None
}

/// Finds `name` in a list of names.
fn find_name(names: &Vec<String>, name: &str) -> (r: bool)
    ensures
        r == has_name(names@, name@),
{
    let key = String::from_str(name);
    let mut i: usize = 0;
    while i < names.len()
        invariant
            key@ == name@,
            i <= names@.len(),
            forall|j: int| 0 <= j < i ==> #[trigger] names@[j]@ != name@,
        decreases names@.len() - i,
    {
        if names[i] == key {
            return true;
        }
        i = i + 1;
    }
    false
}

/// The source of the frozen module `module_name`, labelled `frozen <name>`,
/// to compile and hand to `import_file`; an `ImportError` where the name is
/// not frozen.
pub fn import_frozen(vm: &Runtime, module_name: &str) -> (r: Result<SourceUnit, ImportFailure>)
    ensures
        r is Ok <==> has_key(vm.frozen@, module_name@),
        r matches Ok(u) ==> u.label@ == frozen_label(module_name@) && u.source@ == value_of(
            vm.frozen@,
            module_name@,
        )@,
        r matches Err(e) ==> e matches ImportFailure::ImportError(m) && m@ == not_frozen_message(
            module_name@,
        ),
{
    match find_entry(&vm.frozen, module_name) {
        Some(i) => Ok(
            SourceUnit {
                label: String::from_str("frozen ").concat(module_name),
                source: vm.frozen[i].1.clone(),
            },
        ),
        None => Err(
            ImportFailure::ImportError(
                String::from_str("Cannot import frozen module ").concat(module_name),
            ),
        ),
    }
}

/// Builds the native module `module_name` and publishes it in the cache; an
/// `ImportError` where no factory has that name.
pub fn import_builtin(vm: &mut Runtime, module_name: &str) -> (r: Result<usize, ImportFailure>)
    requires
        old(vm).wf(),
    ensures
        r is Ok <==> has_name(old(vm).builtins@, module_name@),
        r matches Ok(id) ==> id == old(vm).modules@.len() && published(
            *old(vm),
            *final(vm),
            module_name@,
            None,
        ),
        r is Err ==> *final(vm) == *old(vm),
        r matches Err(e) ==> e matches ImportFailure::ImportError(m) && m@
            == not_builtin_message(module_name@),
{
    if find_name(&vm.builtins, module_name) {
        let id = publish(vm, module_name, None);
        Ok(id)
    } else {
        Err(
            ImportFailure::ImportError(
                String::from_str("Cannot import bultin module ").concat(module_name),
            ),
        )
    }
}

/// Makes a module named `name` with file `file` and registers it under `name`.
fn publish(vm: &mut Runtime, name: &str, file: Option<String>) -> (id: usize)
    requires
        old(vm).wf(),
    ensures
        id == old(vm).modules@.len(),
        published(
            *old(vm),
            *final(vm),
            name@,
            match file {
                Some(f) => Some(f@),
                None => None,
            },
        ),
{
    let id = vm.modules.len();
    let ghost before = vm.modules@;
    vm.modules.push(Module { name: String::from_str(name), file });
    assert(vm.modules@.subrange(0, id as int) =~= before);
    assert(vm.wf()) by {
        assert forall|i: int| 0 <= i < vm.sys_modules@.len() implies #[trigger]
            vm.sys_modules@[i].1 < vm.modules@.len() by {}
    }
    vm.register(name, id);
    id
}

/// Compiling the source of `module_name` labelled `file_path` gave `code`.
/// On success this makes the module, with `__file__` set unless the label is
/// the frozen one, and publishes it in the cache before its body runs: a
/// body that imports it again, directly or through other modules, gets this
/// very instance back. Running `code` in the module's namespace is left to
/// the caller. A compile failure is a `SyntaxError` and changes nothing.
pub fn import_file<C>(
    vm: &mut Runtime,
    module_name: &str,
    file_path: String,
    code: Result<C, CompileError>,
) -> (r: Result<Execute<C>, ImportFailure>)
    requires
        old(vm).wf(),
    ensures
        r is Ok <==> code is Ok,
        r matches Ok(x) ==> x.module == old(vm).modules@.len() && code == Ok::<C, CompileError>(
            x.code,
        ) && published(
            *old(vm),
            *final(vm),
            module_name@,
            if file_path@ == frozen_label(module_name@) {
                None
            } else {
                Some(file_path@)
            },
        ),
        r matches Err(e) ==> code == Err::<C, CompileError>(e->SyntaxError_0) && e is SyntaxError
            && *final(vm) == *old(vm),
{
    match code {
        Err(e) => Err(ImportFailure::SyntaxError(e)),
        Ok(c) => {
            let label = String::from_str("frozen ").concat(module_name);
            let file = if file_path == label {
                None
            } else {
                Some(file_path)
            };
            let id = publish(vm, module_name, file);
            Ok(Execute { module: id, code: c })
        },
    }
}

/// Resolves `module_name` from `current_path`, first match wins: the cache,
/// then the frozen table, then the builtin factories, then the filesystem
/// (the current directory before the search path).
pub fn import_module(vm: &mut Runtime, current_path: &str, module_name: &str) -> (r: Resolution)
    requires
        old(vm).wf(),
    ensures
        final(vm).wf(),
        match resolve_step(*old(vm), module_name@) {
            Source::Cache(id) => r == Resolution::Cached(id) && *final(vm) == *old(vm),
            Source::Frozen => *final(vm) == *old(vm) && (r matches Resolution::Compile(u)
                && u.label@ == frozen_label(module_name@) && u.source@ == value_of(
                old(vm).frozen@,
                module_name@,
            )@),
            Source::Builtin => (r matches Resolution::Builtin(id) && id == old(vm).modules@.len())
                && published(
                *old(vm),
                *final(vm),
                module_name@,
                None,
            ),
            Source::Filesystem => *final(vm) == *old(vm) && (r matches Resolution::Search(c)
                && views(c@) == candidates(current_path@, old(vm).path@, module_name@)),
        },
{
    if let Some(id) = vm.lookup(module_name) {
        return Resolution::Cached(id);
    }
    match import_frozen(vm, module_name) {
        Ok(u) => Resolution::Compile(u),
        Err(_) => match import_builtin(vm, module_name) {
            Ok(id) => Resolution::Builtin(id),
            Err(_) => Resolution::Search(candidate_paths(vm, current_path, module_name)),
        },
    }
}

} // verus!
