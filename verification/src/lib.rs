//! A small build-and-package orchestrator for a multi-target native
//! component: it resolves user-facing platform names to toolchain target
//! triples, derives which actions a request implies, sequences the
//! per-target build invocations with abort on first failure, and validates
//! the package-description directory's contents before packaging. The
//! external compiler and packaging tool run outside this library; every
//! decision about what to run, in what order, and what counts as a fatal
//! condition is made - and verified - here.

pub mod builder;
pub mod errors;
pub mod package;
pub mod plan;
pub mod platform;
