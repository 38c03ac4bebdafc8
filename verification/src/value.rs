//! Tagged value union for passing typed scalars across API boundaries.

use vstd::prelude::*;
use vstd::std_specs::convert::FromSpec;

verus! {

/// Marker standing for the database NULL, the "no value" of a column cell.
/// Distinct from an absent raw view, which is "no bytes".
#[derive(Clone, Copy, PartialEq, Eq, Structural, Debug)]
pub struct NullType {}

/// A 32-bit floating-point value carried by its IEEE 754 bit pattern, so
/// that every value, NaN and infinities included, round-trips exactly.
#[derive(Clone, Copy, PartialEq, Eq, Structural, Debug)]
pub struct FloatBits32 {
    pub bits: u32,
}

/// A 64-bit floating-point value carried by its IEEE 754 bit pattern, so
/// that every value, NaN and infinities included, round-trips exactly.
#[derive(Clone, Copy, PartialEq, Eq, Structural, Debug)]
pub struct FloatBits64 {
    pub bits: u64,
}

/// Container carrying one concrete value of any supported kind, or NULL.
/// Exactly one variant is active; text and blob payloads borrow from
/// caller-owned memory and the value never outlives that memory.
#[derive(Clone, Copy, Debug)]
pub enum Value<'a> {
    NULL,
    UINT32(u32),
    UINT64(u64),
    INT32(i32),
    INT64(i64),
    FLOAT32(FloatBits32),
    FLOAT64(FloatBits64),
    BOOLEAN(bool),
    TEXT(&'a str),
    BLOB(&'a [u8]),
}

impl<'a> vstd::std_specs::convert::FromSpecImpl<NullType> for Value<'a> {
    open spec fn obeys_from_spec() -> bool {
        true
    }

    open spec fn from_spec(v: NullType) -> Self {
        Value::NULL
    }
}

impl<'a> From<NullType> for Value<'a> {
    fn from(v: NullType) -> Self {
        Value::NULL
    }
}

impl<'a> vstd::std_specs::convert::FromSpecImpl<u32> for Value<'a> {
    open spec fn obeys_from_spec() -> bool {
        true
    }

    open spec fn from_spec(v: u32) -> Self {
        Value::UINT32(v)
    }
}

impl<'a> From<u32> for Value<'a> {
    fn from(v: u32) -> Self {
        Value::UINT32(v)
    }
}

impl<'a> vstd::std_specs::convert::FromSpecImpl<u64> for Value<'a> {
    open spec fn obeys_from_spec() -> bool {
        true
    }

    open spec fn from_spec(v: u64) -> Self {
        Value::UINT64(v)
    }
}

impl<'a> From<u64> for Value<'a> {
    fn from(v: u64) -> Self {
        Value::UINT64(v)
    }
}

impl<'a> vstd::std_specs::convert::FromSpecImpl<i32> for Value<'a> {
    open spec fn obeys_from_spec() -> bool {
        true
    }

    open spec fn from_spec(v: i32) -> Self {
        Value::INT32(v)
    }
}

impl<'a> From<i32> for Value<'a> {
    fn from(v: i32) -> Self {
        Value::INT32(v)
    }
}

impl<'a> vstd::std_specs::convert::FromSpecImpl<i64> for Value<'a> {
    open spec fn obeys_from_spec() -> bool {
        true
    }

    open spec fn from_spec(v: i64) -> Self {
        Value::INT64(v)
    }
}

impl<'a> From<i64> for Value<'a> {
    fn from(v: i64) -> Self {
        Value::INT64(v)
    }
}

impl<'a> vstd::std_specs::convert::FromSpecImpl<FloatBits32> for Value<'a> {
    open spec fn obeys_from_spec() -> bool {
        true
    }

    open spec fn from_spec(v: FloatBits32) -> Self {
        Value::FLOAT32(v)
    }
}

impl<'a> From<FloatBits32> for Value<'a> {
    fn from(v: FloatBits32) -> Self {
        Value::FLOAT32(v)
    }
}

impl<'a> vstd::std_specs::convert::FromSpecImpl<FloatBits64> for Value<'a> {
    open spec fn obeys_from_spec() -> bool {
        true
    }

    open spec fn from_spec(v: FloatBits64) -> Self {
        Value::FLOAT64(v)
    }
}

impl<'a> From<FloatBits64> for Value<'a> {
    fn from(v: FloatBits64) -> Self {
        Value::FLOAT64(v)
    }
}

impl<'a> vstd::std_specs::convert::FromSpecImpl<bool> for Value<'a> {
    open spec fn obeys_from_spec() -> bool {
        true
    }

    open spec fn from_spec(v: bool) -> Self {
        Value::BOOLEAN(v)
    }
}

impl<'a> From<bool> for Value<'a> {
    fn from(v: bool) -> Self {
        Value::BOOLEAN(v)
    }
}

impl<'a> vstd::std_specs::convert::FromSpecImpl<&'a str> for Value<'a> {
    open spec fn obeys_from_spec() -> bool {
        true
    }

    open spec fn from_spec(v: &'a str) -> Self {
        Value::TEXT(v)
    }
}

impl<'a> From<&'a str> for Value<'a> {
    fn from(v: &'a str) -> Self {
        Value::TEXT(v)
    }
}

impl<'a> vstd::std_specs::convert::FromSpecImpl<&'a [u8]> for Value<'a> {
    open spec fn obeys_from_spec() -> bool {
        true
    }

    open spec fn from_spec(v: &'a [u8]) -> Self {
        Value::BLOB(v)
    }
}

impl<'a> From<&'a [u8]> for Value<'a> {
    fn from(v: &'a [u8]) -> Self {
        Value::BLOB(v)
    }
}

/// From the NULL marker the tagged value is always the NULL variant, and
/// that variant differs from every value-carrying variant, including
/// zero-valued scalars.
pub proof fn lemma_null_distinct<'a>(v: Value<'a>)
    ensures
        Value::from_spec(NullType {}) == Value::<'a>::NULL,
        !(v is NULL) ==> v != Value::<'a>::NULL,
{
}

} // verus!
