//! The module-loading and interactive front end of a language runtime: the
//! module cache and the ordered resolution of module names (cache, frozen
//! sources, native factories, filesystem), publication of a module before
//! its body runs, the one-time installation of the hosted import machinery,
//! and the state machine of the interactive read loop. Compiling, running
//! code and touching files are left to the caller, which reports their
//! outcome back to these step functions.
use vstd::prelude::*;

pub mod text;
pub mod registry;
pub mod import;
pub mod shell;
pub mod bootstrap;
pub mod laws;

verus! {

} // verus!
