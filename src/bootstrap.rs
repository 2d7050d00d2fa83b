use vstd::prelude::*;

use crate::import::{
    import_builtin, import_file, import_frozen, published, frozen_label, not_frozen_message, not_builtin_message, CompileError, Execute,
    ImportFailure, SourceUnit,
};
use crate::registry::{has_key, has_name, value_of, ImportHook, Runtime};

verus! {

/// Where the one-time installation of the hosted import machinery stands.
#[derive(PartialEq, Eq, Structural, Clone, Copy, Debug)]
pub enum Boot {
    /// Nothing done yet.
    Start,
    /// The source of the bootstrap module is being compiled.
    Compiling,
    /// The body of the bootstrap module (this identity) is running.
    Running(usize),
    /// Its `_install` entry point is being called.
    Installing(usize),
    /// Its `_install_external_importers` entry point is being called.
    Finishing(usize),
    /// Imports go through the hosted hook, and files can be imported.
    Ready,
    /// A step failed; startup cannot go on.
    Failed,
}

/// What the caller reports back to the bootstrap sequence.
pub enum BootEvent<C, E> {
    /// Startup begins.
    Begin,
    /// The bootstrap source compiled, or not.
    Compiled(Result<C, CompileError>),
    /// The last call asked for returned, or raised.
    Returned(Result<(), E>),
}

/// Why startup failed.
pub enum BootFailure<E> {
    Import(ImportFailure),
    Raised(E),
}

/// What the bootstrap sequence asks for next.
pub enum BootAction<C, E> {
    /// Compile this source in whole-module mode.
    Compile(SourceUnit),
    /// Run the bootstrap module's body.
    Run(Execute<C>),
    /// Call `_install` of the module `importlib` with the system module and
    /// the native import-support module `imp`.
    Install { importlib: usize, imp: usize },
    /// Call `_install_external_importers` of the module `importlib`.
    InstallExternal { importlib: usize },
    /// Startup is done.
    Done,
    /// Startup failed: report and stop.
    Fatal(BootFailure<E>),
}

/// The frozen module that holds the hosted import machinery.
pub open spec fn bootstrap_name() -> Seq<char> {
    "_frozen_importlib"@
}

/// The builtin module of native import support.
pub open spec fn support_name() -> Seq<char> {
    "_imp"@
}

/// The event that the stage `b` waits for.
pub open spec fn expects<C, E>(b: Boot, e: BootEvent<C, E>) -> bool {
    match b {
        Boot::Start => e is Begin,
        Boot::Compiling => e is Compiled,
        Boot::Running(_) | Boot::Installing(_) | Boot::Finishing(_) => e is Returned,
        _ => false,
    }
}

/// Runs one step of startup: from the stage `stage` and what the last action
/// gave, the next stage and action. In order: compile and run the frozen
/// bootstrap module, build the builtin import-support module, call the
/// bootstrap's `_install`, make its `__import__` the import hook, call its
/// `_install_external_importers`. Any failure is fatal.
pub fn init_importlib<C, E>(vm: &mut Runtime, stage: &mut Boot, event: BootEvent<C, E>) -> (r:
    BootAction<C, E>)
    requires
        old(vm).wf(),
        expects(*old(stage), event),
    ensures
        final(vm).wf(),
        match (*old(stage), event) {
            (Boot::Start, _) => if has_key(old(vm).frozen@, bootstrap_name()) {
                *final(stage) == Boot::Compiling && *final(vm) == *old(vm) && (
                r matches BootAction::Compile(u) && u.label@ == frozen_label(bootstrap_name())
                    && u.source@ == value_of(old(vm).frozen@, bootstrap_name())@)
            } else {
                *final(stage) == Boot::Failed && *final(vm) == *old(vm) && (
                r matches BootAction::Fatal(f) && f matches BootFailure::Import(
                    ImportFailure::ImportError(m),
                ) && m@ == not_frozen_message(bootstrap_name()))
            },
            (Boot::Compiling, BootEvent::Compiled(Ok(c))) => *final(stage) == Boot::Running(
                old(vm).modules@.len() as usize,
            ) && published(*old(vm), *final(vm), bootstrap_name(), None) && (
            r matches BootAction::Run(x) && x.module == old(vm).modules@.len() && x.code == c),
            (Boot::Compiling, BootEvent::Compiled(Err(e))) => *final(stage) == Boot::Failed
                && *final(vm) == *old(vm) && (r matches BootAction::Fatal(f) && f
                == BootFailure::<E>::Import(ImportFailure::SyntaxError(e))),
            (Boot::Running(m), BootEvent::Returned(Ok(_))) => if has_name(
                old(vm).builtins@,
                support_name(),
            ) {
                *final(stage) == Boot::Installing(m) && published(
                    *old(vm),
                    *final(vm),
                    support_name(),
                    None,
                ) && r == BootAction::<C, E>::Install {
                    importlib: m,
                    imp: old(vm).modules@.len() as usize,
                }
            } else {
                *final(stage) == Boot::Failed && *final(vm) == *old(vm) && (
                r matches BootAction::Fatal(f) && f matches BootFailure::Import(
                    ImportFailure::ImportError(m),
                ) && m@ == not_builtin_message(support_name()))
            },
            (Boot::Installing(m), BootEvent::Returned(Ok(_))) => *final(stage) == Boot::Finishing(m)
                && *final(vm) == (Runtime { import_func: ImportHook::Hosted(m), ..*old(vm) })
                && r == BootAction::<C, E>::InstallExternal { importlib: m },
            (Boot::Finishing(_), BootEvent::Returned(Ok(_))) => *final(stage) == Boot::Ready
                && *final(vm) == (Runtime { external_importers: true, ..*old(vm) }) && r
                == BootAction::<C, E>::Done,
            (_, BootEvent::Returned(Err(x))) => *final(stage) == Boot::Failed && *final(vm)
                == *old(vm) && r == BootAction::<C, E>::Fatal(BootFailure::Raised(x)),
            _ => false,
        },
{
    match (*stage, event) {
        (Boot::Start, _) => match import_frozen(vm, "_frozen_importlib") {
            Ok(u) => {
                *stage = Boot::Compiling;
                BootAction::Compile(u)
            },
            Err(e) => {
                *stage = Boot::Failed;
                BootAction::Fatal(BootFailure::Import(e))
            },
        },
        (Boot::Compiling, BootEvent::Compiled(code)) => {
            let label = String::from_str("frozen ").concat("_frozen_importlib");
            match import_file(vm, "_frozen_importlib", label, code) {
                Ok(x) => {
                    *stage = Boot::Running(x.module);
                    BootAction::Run(x)
                },
                Err(e) => {
                    *stage = Boot::Failed;
                    BootAction::Fatal(BootFailure::Import(e))
                },
            }
        },
        (Boot::Running(m), BootEvent::Returned(Ok(_))) => match import_builtin(vm, "_imp") {
            Ok(imp) => {
                *stage = Boot::Installing(m);
                BootAction::Install { importlib: m, imp }
            },
            Err(e) => {
                *stage = Boot::Failed;
                BootAction::Fatal(BootFailure::Import(e))
            },
        },
        (Boot::Installing(m), BootEvent::Returned(Ok(_))) => {
            vm.import_func = ImportHook::Hosted(m);
            *stage = Boot::Finishing(m);
            BootAction::InstallExternal { importlib: m }
        },
        (Boot::Finishing(_), BootEvent::Returned(Ok(_))) => {
            vm.external_importers = true;
            *stage = Boot::Ready;
            BootAction::Done
        },
        (_, BootEvent::Returned(Err(x))) => {
            *stage = Boot::Failed;
            BootAction::Fatal(BootFailure::Raised(x))
        },
        _ => {
            *stage = Boot::Failed;
            BootAction::Done
        },
    }
}

} // verus!
