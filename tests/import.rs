use rustpython::bootstrap::{init_importlib, Boot, BootAction, BootEvent, BootFailure};
use rustpython::import::{
    candidate_paths, find_source, import_builtin, import_file, import_frozen, import_module,
    CompileError, ImportFailure, Resolution,
};
use rustpython::registry::{ImportHook, Runtime};

fn s(x: &str) -> String {
    x.to_string()
}

fn runtime(frozen: &[(&str, &str)], builtins: &[&str], path: &[&str]) -> Runtime {
    Runtime::new(
        frozen.iter().map(|(n, t)| (s(n), s(t))).collect(),
        builtins.iter().map(|n| s(n)).collect(),
        path.iter().map(|p| s(p)).collect(),
    )
}

/// Runs a filesystem search against a set of files that exist.
fn search(vm: &mut Runtime, current: &str, name: &str, files: &[&str]) -> Result<String, ImportFailure> {
    match import_module(vm, current, name) {
        Resolution::Search(c) => {
            let exists: Vec<bool> = c.iter().map(|p| files.contains(&p.as_str())).collect();
            find_source(&c, &exists, name)
        }
        _ => panic!("expected a filesystem search"),
    }
}

#[test]
fn lookup_and_register() {
    let mut vm = runtime(&[], &["sys"], &[]);
    assert_eq!(vm.lookup("sys"), None);
    let id = import_builtin(&mut vm, "sys").unwrap();
    assert_eq!(vm.lookup("sys"), Some(id));
    let other = import_builtin(&mut vm, "sys").unwrap();
    assert_ne!(id, other);
    assert_eq!(vm.lookup("sys"), Some(other));
    vm.register("alias", id);
    assert_eq!(vm.lookup("alias"), Some(id));
    assert_eq!(vm.lookup("sys"), Some(other));
    assert_eq!(vm.sys_modules.len(), 2);
}

#[test]
fn candidates_in_order() {
    let vm = runtime(&[], &[], &["P1", "P2/"]);
    let c = candidate_paths(&vm, "C", "m");
    assert_eq!(
        c,
        vec![s("C/m.py"), s("C/m/__init__.py"), s("P1/m.py"), s("P1/m/__init__.py"), s("P2/m.py"), s("P2/m/__init__.py")]
    );
}

#[test]
fn candidates_dotted_name_and_empty_dir() {
    let vm = runtime(&[], &[], &[]);
    let c = candidate_paths(&vm, "", "a.b.c");
    assert_eq!(c, vec![s("a/b/c.py"), s("a/b/c/__init__.py")]);
}

#[test]
fn path_ordering_current_dir_first() {
    let mut vm = runtime(&[], &[], &["P1", "P2"]);
    let r = search(&mut vm, "C", "m", &["C/m.py", "P2/m.py"]);
    assert_eq!(r, Ok(s("C/m.py")));
    let r = search(&mut vm, "C", "m", &["P2/m.py"]);
    assert_eq!(r, Ok(s("P2/m.py")));
}

#[test]
fn suffix_ordering_module_before_package() {
    let mut vm = runtime(&[], &[], &[]);
    let r = search(&mut vm, "d", "pkg", &["d/pkg.py", "d/pkg/__init__.py"]);
    assert_eq!(r, Ok(s("d/pkg.py")));
    let r = search(&mut vm, "d", "pkg", &["d/pkg/__init__.py"]);
    assert_eq!(r, Ok(s("d/pkg/__init__.py")));
}

#[test]
fn unknown_module_not_found() {
    let mut vm = runtime(&[("other", "x = 1\n")], &["sys"], &["lib"]);
    let r = search(&mut vm, ".", "nope.sub", &[]);
    match r {
        Err(ImportFailure::ModuleNotFound(m)) => {
            assert!(m.contains("nope.sub"));
            assert_eq!(m, "No module named 'nope.sub'");
        }
        other => panic!("unexpected {:?}", other),
    }
}

#[test]
fn frozen_takes_precedence_over_files() {
    let mut vm = runtime(&[("x", "frozen = True\n")], &[], &["."]);
    match import_module(&mut vm, ".", "x") {
        Resolution::Compile(u) => {
            assert_eq!(u.label, "frozen x");
            assert_eq!(u.source, "frozen = True\n");
        }
        _ => panic!("expected the frozen source"),
    }
    assert_eq!(vm.modules.len(), 0);
}

#[test]
fn frozen_and_builtin_errors() {
    let mut vm = runtime(&[], &[], &[]);
    match import_frozen(&vm, "zz") {
        Err(ImportFailure::ImportError(m)) => assert_eq!(m, "Cannot import frozen module zz"),
        _ => panic!("expected an import error"),
    }
    assert_eq!(
        import_builtin(&mut vm, "zz"),
        Err(ImportFailure::ImportError(s("Cannot import bultin module zz")))
    );
    assert_eq!(vm.modules.len(), 0);
}

#[test]
fn builtin_module_is_registered() {
    let mut vm = runtime(&[], &["_imp"], &[]);
    match import_module(&mut vm, ".", "_imp") {
        Resolution::Builtin(id) => {
            assert_eq!(id, 0);
            assert_eq!(vm.modules[0].name, "_imp");
            assert_eq!(vm.modules[0].file, None);
        }
        _ => panic!("expected a builtin"),
    }
    assert!(matches!(import_module(&mut vm, ".", "_imp"), Resolution::Cached(0)));
}

#[test]
fn identity_idempotence() {
    let mut vm = runtime(&[("boot", "x = 1\n")], &[], &[]);
    let u = match import_module(&mut vm, ".", "boot") {
        Resolution::Compile(u) => u,
        _ => panic!("expected the frozen source"),
    };
    let x = import_file(&mut vm, "boot", u.label, Ok::<u32, CompileError>(5)).unwrap();
    assert_eq!(x.module, 0);
    assert_eq!(x.code, 5);
    assert_eq!(vm.modules[0].file, None);
    assert!(matches!(import_module(&mut vm, ".", "boot"), Resolution::Cached(0)));
    assert!(matches!(import_module(&mut vm, ".", "boot"), Resolution::Cached(0)));
    assert_eq!(vm.modules.len(), 1);
}

#[test]
fn cycle_safety() {
    let files = ["C/a.py", "C/b.py"];
    let mut vm = runtime(&[], &[], &[]);
    let pa = search(&mut vm, "C", "a", &files).unwrap();
    let xa = import_file(&mut vm, "a", pa, Ok::<&str, CompileError>("body of a")).unwrap();
    // the body of a runs and imports b
    let pb = search(&mut vm, "C", "b", &files).unwrap();
    let xb = import_file(&mut vm, "b", pb, Ok::<&str, CompileError>("body of b")).unwrap();
    // the body of b imports a: the instance being loaded comes back
    match import_module(&mut vm, "C", "a") {
        Resolution::Cached(id) => assert_eq!(id, xa.module),
        _ => panic!("expected the cached module"),
    }
    assert_ne!(xa.module, xb.module);
    assert_eq!(vm.modules.len(), 2);
    assert_eq!(vm.modules[xa.module].file, Some(s("C/a.py")));
}

#[test]
fn import_file_syntax_error_changes_nothing() {
    let mut vm = runtime(&[], &[], &[]);
    let r = import_file::<u8>(&mut vm, "m", s("m.py"), Err(CompileError::Parse(s("bad"))));
    assert!(matches!(r, Err(ImportFailure::SyntaxError(CompileError::Parse(_)))));
    assert_eq!(vm.modules.len(), 0);
    assert_eq!(vm.lookup("m"), None);
}

#[test]
fn import_file_sets_file_path() {
    let mut vm = runtime(&[], &[], &[]);
    let x = import_file(&mut vm, "m", s("dir/m.py"), Ok::<u8, CompileError>(0)).unwrap();
    assert_eq!(vm.modules[x.module].name, "m");
    assert_eq!(vm.modules[x.module].file, Some(s("dir/m.py")));
    assert_eq!(vm.lookup("m"), Some(x.module));
}

#[test]
fn bootstrap_runs_in_order() {
    let mut vm = runtime(&[("_frozen_importlib", "def _install(s, i): pass\n")], &["_imp"], &[]);
    let mut stage = Boot::Start;
    match init_importlib::<u8, ()>(&mut vm, &mut stage, BootEvent::Begin) {
        BootAction::Compile(u) => assert_eq!(u.label, "frozen _frozen_importlib"),
        _ => panic!("expected compile"),
    }
    assert_eq!(stage, Boot::Compiling);
    match init_importlib::<u8, ()>(&mut vm, &mut stage, BootEvent::Compiled(Ok(3))) {
        BootAction::Run(x) => assert_eq!((x.module, x.code), (0, 3)),
        _ => panic!("expected run"),
    }
    assert_eq!(stage, Boot::Running(0));
    match init_importlib::<u8, ()>(&mut vm, &mut stage, BootEvent::Returned(Ok(()))) {
        BootAction::Install { importlib, imp } => assert_eq!((importlib, imp), (0, 1)),
        _ => panic!("expected install"),
    }
    assert_eq!(vm.import_func, ImportHook::Native);
    let a = init_importlib::<u8, ()>(&mut vm, &mut stage, BootEvent::Returned(Ok(())));
    assert!(matches!(a, BootAction::InstallExternal { importlib: 0 }));
    assert_eq!(vm.import_func, ImportHook::Hosted(0));
    assert!(!vm.external_importers);
    let a = init_importlib::<u8, ()>(&mut vm, &mut stage, BootEvent::Returned(Ok(())));
    assert!(matches!(a, BootAction::Done));
    assert_eq!(stage, Boot::Ready);
    assert!(vm.external_importers);
    assert_eq!(vm.lookup("_frozen_importlib"), Some(0));
    assert_eq!(vm.lookup("_imp"), Some(1));
}

#[test]
fn bootstrap_failures_are_fatal() {
    let mut vm = runtime(&[], &["_imp"], &[]);
    let mut stage = Boot::Start;
    let a = init_importlib::<u8, ()>(&mut vm, &mut stage, BootEvent::Begin);
    assert!(matches!(a, BootAction::Fatal(BootFailure::Import(ImportFailure::ImportError(_)))));
    assert_eq!(stage, Boot::Failed);

    let mut vm = runtime(&[("_frozen_importlib", "")], &[], &[]);
    let mut stage = Boot::Compiling;
    let a = init_importlib::<u8, ()>(&mut vm, &mut stage, BootEvent::Compiled(Err(CompileError::Incomplete)));
    assert!(matches!(a, BootAction::Fatal(BootFailure::Import(ImportFailure::SyntaxError(CompileError::Incomplete)))));

    let mut stage = Boot::Running(0);
    let _ = import_builtin(&mut vm, "nothing");
    let a = init_importlib::<u8, ()>(&mut vm, &mut stage, BootEvent::Returned(Ok(())));
    assert!(matches!(a, BootAction::Fatal(BootFailure::Import(ImportFailure::ImportError(_)))));

    let mut stage = Boot::Installing(0);
    let a = init_importlib::<u8, &str>(&mut vm, &mut stage, BootEvent::Returned(Err("boom")));
    assert!(matches!(a, BootAction::Fatal(BootFailure::Raised("boom"))));
    assert_eq!(stage, Boot::Failed);
}
