//! Type and value representation layer for a column-oriented data store:
//! a closed set of symbolic column types with per-kind storage metadata,
//! a non-owning raw view over variable-length bytes, and a tagged value
//! union for passing typed scalars across API boundaries.

pub mod error;
pub mod raw;
pub mod types;
pub mod value;
