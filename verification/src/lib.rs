//! Native module registry and dispatch layer for an embedded scripting
//! language.
//!
//! The crate declares a fixed catalog of built-in functions grouped into
//! modules, exports their signatures for static analysis, resolves selective
//! imports into a runtime environment, validates and executes invocations
//! against a tagged runtime value representation, and dispatches instance
//! style method calls on primitive values.  Work that the verified core
//! cannot perform itself (stream I/O and floating-point evaluation) is
//! returned to the embedding as an explicit host operation.

pub mod catalog;
pub mod double_bits;
pub mod methods;
pub mod natives;
pub mod registrar;
pub mod text;
pub mod values;

pub use catalog::has_native_module;
pub use catalog::signatures_for;
pub use registrar::register_modules;
pub use registrar::RuntimeEnvironment;

pub use values::FuncSig;
pub use values::ModuleId;
pub use values::NativeId;
pub use values::SemanticType;
pub use values::Value;
