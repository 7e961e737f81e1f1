//! Marshalling layer between native code and a PHP-style embedding runtime.
//!
//! The embedding runtime represents every value as a uniformly sized, tagged,
//! reference-counted cell (a "zval").  This crate models the runtime's string
//! heap, the owned string container with manual lifetime control, the tagged
//! value cell with its typed accessors, and the compile-time derive logic that
//! turns a native type definition into a conversion plan between the native
//! type and the runtime's value representation.

use vstd::prelude::*;

pub mod convert;
pub mod derive_model;
pub mod from_derive;
pub mod interp;
pub mod into_derive;
pub mod laws;
pub mod plan;
pub mod runtime;
pub mod value;
pub mod zend_string;

verus! {

/// Failure conditions of the marshalling layer.
///
/// A read-direction type mismatch is *not* an error: it is signalled by
/// returning `None`, because the dispatch layer above turns a missing
/// conversion into a user-visible type error.
#[derive(Clone, Copy, Debug, PartialEq, Eq, Structural)]
pub enum Error {
    /// A null or stale handle was passed across the boundary.
    InvalidPointer,
    /// String bytes were not well-formed UTF-8 when text was requested.
    InvalidEncoding,
}

} // verus!
