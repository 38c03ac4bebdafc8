//! Errors reported by this layer.

use vstd::prelude::*;

verus! {

/// The single recoverable error of this layer: a type name outside the
/// closed set of canonical names, carrying the offending string.
#[derive(Debug)]
pub enum DBError {
    UnknownType(String),
}

} // verus!
