//! Error kinds of the library.
//!
//! Resolution-phase failures (module or symbol lookup) are fatal for the
//! caller; walk-phase failures on individual assemblies, classes, fields and
//! methods are recovered locally by skip-and-continue and never surface as
//! one of these values to the top-level caller, except a failure to
//! enumerate the assemblies of the domain itself.

use vstd::prelude::*;

verus! {

/// Everything that can go wrong while resolving the native entry points or
/// walking the foreign type system.
#[derive(Debug, Clone, PartialEq, Eq)]
pub enum Error {
    /// The named module is not present in the current process's module list.
    ModuleNotFound,
    /// A single export could not be resolved; carries the symbol name.
    SymbolNotResolved(String),
    /// One or more entry points the library cannot operate without were
    /// missing; carries the unresolved names.
    EssentialApiMissing(Vec<String>),
    /// A native call returned a null result where a non-null one was
    /// semantically required; carries a description of what was requested.
    NullNativeResult(String),
    /// The domain handle was null or the domain-level assembly enumeration
    /// was unavailable.
    DomainUnavailable,
    /// A native C string could not be decoded as text.
    StringDecodeFailure,
}

} // verus!
