//! A typed, queryable model of a foreign managed runtime's type system.
//!
//! The foreign runtime exposes its metadata (domains, assemblies, classes,
//! fields, methods) only through natively resolved C function pointers.  This
//! crate holds everything that can be decided from plain values: symbol
//! resolution caching, the one-pass metadata walk with its skip policies,
//! member classification, lookup with overload resolution, and the
//! bookkeeping of zero-copy views over foreign memory.  The raw calls
//! themselves reach the library through small traits whose implementations
//! live with the host.

pub mod api;
pub mod cache;
pub mod classes;
pub mod client;
pub mod error;
pub mod functions;
pub mod handle;
pub mod native;
pub mod resolver;
pub mod strutil;
pub mod unityresolve;
