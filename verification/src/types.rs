//! The closed set of symbolic column types and their storage metadata.

use vstd::prelude::*;
use vstd::string::StringSliceAdditionalSpecFns;
use vstd::utf8::encode_utf8_decode_utf8;

use crate::error::DBError;

verus! {

/// Byte-wise string equality, which coincides with equality of the views.
fn str_eq(a: &str, b: &str) -> (r: bool)
    ensures
        r == (a@ == b@),
{
    let ab = a.as_bytes();
    let bb = b.as_bytes();
    if ab.len() != bb.len() {
        return false;
    }
    let mut i: usize = 0;
    while i < ab.len()
        invariant
            i <= ab@.len(),
            ab@.len() == bb@.len(),
            ab@ == a.spec_bytes(),
            bb@ == b.spec_bytes(),
            forall|j: int| 0 <= j < i ==> ab@[j] == bb@[j],
        decreases ab@.len() - i,
    {
        if ab[i] != bb[i] {
            return false;
        }
        i += 1;
    }
    proof {
        assert(ab@ =~= bb@);
        encode_utf8_decode_utf8(a@);
        encode_utf8_decode_utf8(b@);
    }
    true
}

/// Symbolic type of a column attribute: the closed set of scalar and
/// variable-length kinds the store supports.
#[derive(Clone, Copy, PartialEq, Eq, Structural, Debug)]
pub enum Type {
    UINT32,
    UINT64,
    INT32,
    INT64,
    FLOAT32,
    FLOAT64,
    BOOLEAN,
    TEXT,
    BLOB,
}

/// Width in bytes of a raw view descriptor (a pointer-sized address plus a
/// pointer-sized length), the slot size reserved for variable-length kinds.
pub const VIEW_DESCRIPTOR_WIDTH: usize = 16;

/// Storage width in bytes of each kind: the in-memory representation for
/// fixed-length kinds, the view-descriptor width for variable-length kinds.
pub open spec fn spec_width(t: Type) -> int {
    match t {
        Type::UINT32 => 4,
        Type::UINT64 => 8,
        Type::INT32 => 4,
        Type::INT64 => 8,
        Type::FLOAT32 => 4,
        Type::FLOAT64 => 8,
        Type::BOOLEAN => 1,
        Type::TEXT => VIEW_DESCRIPTOR_WIDTH as int,
        Type::BLOB => VIEW_DESCRIPTOR_WIDTH as int,
    }
}

/// A kind stores variable-length data exactly when it is `TEXT` or `BLOB`.
pub open spec fn spec_varlen(t: Type) -> bool {
    t == Type::TEXT || t == Type::BLOB
}

/// Whether storing or duplicating a value of the kind must copy the
/// referenced bytes into owned storage. Every kind currently requires the
/// copy; the per-kind parameter is the extension point for kinds that may
/// one day alias without copying.
pub open spec fn spec_deep_copy(t: Type) -> bool {
    true
}

/// The canonical uppercase identifier of each kind, as it appears in
/// serialized schema text and diagnostics.
pub open spec fn spec_name(t: Type) -> Seq<char> {
    match t {
        Type::UINT32 => "UINT32"@,
        Type::UINT64 => "UINT64"@,
        Type::INT32 => "INT32"@,
        Type::INT64 => "INT64"@,
        Type::FLOAT32 => "FLOAT32"@,
        Type::FLOAT64 => "FLOAT64"@,
        Type::BOOLEAN => "BOOLEAN"@,
        Type::TEXT => "TEXT"@,
        Type::BLOB => "BLOB"@,
    }
}

/// The kind whose canonical name the given text is, if any.
pub open spec fn spec_parse(s: Seq<char>) -> Option<Type> {
    if s == spec_name(Type::UINT32) {
        Option::Some(Type::UINT32)
    } else if s == spec_name(Type::UINT64) {
        Option::Some(Type::UINT64)
    } else if s == spec_name(Type::INT32) {
        Option::Some(Type::INT32)
    } else if s == spec_name(Type::INT64) {
        Option::Some(Type::INT64)
    } else if s == spec_name(Type::FLOAT32) {
        Option::Some(Type::FLOAT32)
    } else if s == spec_name(Type::FLOAT64) {
        Option::Some(Type::FLOAT64)
    } else if s == spec_name(Type::BOOLEAN) {
        Option::Some(Type::BOOLEAN)
    } else if s == spec_name(Type::TEXT) {
        Option::Some(Type::TEXT)
    } else if s == spec_name(Type::BLOB) {
        Option::Some(Type::BLOB)
    } else {
        Option::None
    }
}

impl Type {
    /// The canonical uppercase identifier of this kind.
    pub fn name(self) -> (r: &'static str)
        ensures
            r@ == spec_name(self),
    {
        match self {
            Type::UINT32 => "UINT32",
            Type::UINT64 => "UINT64",
            Type::INT32 => "INT32",
            Type::INT64 => "INT64",
            Type::FLOAT32 => "FLOAT32",
            Type::FLOAT64 => "FLOAT64",
            Type::BOOLEAN => "BOOLEAN",
            Type::TEXT => "TEXT",
            Type::BLOB => "BLOB",
        }
    }

    /// The kind named by the given text; any other text is rejected with
    /// an unknown-type error carrying that text.
    pub fn parse(s: &str) -> (r: Result<Type, DBError>)
        ensures
            match r {
                Ok(t) => spec_parse(s@) == Option::Some(t),
                Err(e) => spec_parse(s@) is None && (e matches DBError::UnknownType(w)
                    && w@ == s@),
            },
    {
        if str_eq(s, "UINT32") {
            Ok(Type::UINT32)
        } else if str_eq(s, "UINT64") {
            Ok(Type::UINT64)
        } else if str_eq(s, "INT32") {
            Ok(Type::INT32)
        } else if str_eq(s, "INT64") {
            Ok(Type::INT64)
        } else if str_eq(s, "FLOAT32") {
            Ok(Type::FLOAT32)
        } else if str_eq(s, "FLOAT64") {
            Ok(Type::FLOAT64)
        } else if str_eq(s, "BOOLEAN") {
            Ok(Type::BOOLEAN)
        } else if str_eq(s, "TEXT") {
            Ok(Type::TEXT)
        } else if str_eq(s, "BLOB") {
            Ok(Type::BLOB)
        } else {
            Err(DBError::UnknownType(s.to_owned()))
        }
    }

    /// Storage width in bytes of a column slot of this kind.
    pub fn size_of(self) -> (n: usize)
        ensures
            n == spec_width(self),
    {
        match self {
            Type::UINT32 => 4,
            Type::UINT64 => 8,
            Type::INT32 => 4,
            Type::INT64 => 8,
            Type::FLOAT32 => 4,
            Type::FLOAT64 => 8,
            Type::BOOLEAN => 1,
            Type::TEXT => VIEW_DESCRIPTOR_WIDTH,
            Type::BLOB => VIEW_DESCRIPTOR_WIDTH,
        }
    }

    /// Whether a column of this kind stores variable-length data.
    pub fn is_variable_length(self) -> (b: bool)
        ensures
            b == spec_varlen(self),
    {
        match self {
            Type::TEXT => true,
            Type::BLOB => true,
            _ => false,
        }
    }
}

/// Per-kind storage metadata: how many bytes a column slot reserves,
/// whether the kind is variable-length, and whether storing a value must
/// deep-copy the referenced bytes.
#[derive(Clone, Copy, PartialEq, Eq, Structural, Debug)]
pub struct TypeDescriptor {
    pub native_width: usize,
    pub is_variable_length: bool,
    pub requires_deep_copy: bool,
}

/// The descriptor of the given kind. The lookup is total and pure: the set
/// of kinds is closed, so every kind has exactly one descriptor.
pub fn descriptor_for(t: Type) -> (d: TypeDescriptor)
    ensures
        d.native_width == spec_width(t),
        d.is_variable_length == spec_varlen(t),
        d.requires_deep_copy == spec_deep_copy(t),
{
    TypeDescriptor {
        native_width: t.size_of(),
        is_variable_length: t.is_variable_length(),
        requires_deep_copy: true,
    }
}

/// Higher-level metadata about a kind, carried by one marker type per kind.
pub trait ValueInfo {
    /// The symbolic kind this marker stands for.
    spec fn spec_enum(&self) -> Type;

    /// The symbolic kind this marker stands for.
    fn enum_type(&self) -> (t: Type)
        ensures
            t == self.spec_enum(),
    ;

    /// Whether storing a value of this kind must deep-copy referenced bytes.
    fn deep_copy(&self) -> (b: bool)
        ensures
            b == spec_deep_copy(self.spec_enum()),
    {
        true
    }

    /// Whether this kind stores variable-length data.
    fn varlen(&self) -> (b: bool)
        ensures
            b == spec_varlen(self.spec_enum()),
    {
        self.enum_type().is_variable_length()
    }

    /// Byte size of the native representation backing a column of this kind.
    fn size_of(&self) -> (n: usize)
        ensures
            n == spec_width(self.spec_enum()),
    {
        self.enum_type().size_of()
    }
}

pub struct UInt32;

pub struct UInt64;

pub struct Int32;

pub struct Int64;

pub struct Float32;

pub struct Float64;

pub struct Boolean;

pub struct Text;

pub struct Blob;

impl ValueInfo for UInt32 {
    open spec fn spec_enum(&self) -> Type {
        Type::UINT32
    }

    fn enum_type(&self) -> (t: Type) {
        Type::UINT32
    }
}

impl ValueInfo for UInt64 {
    open spec fn spec_enum(&self) -> Type {
        Type::UINT64
    }

    fn enum_type(&self) -> (t: Type) {
        Type::UINT64
    }
}

impl ValueInfo for Int32 {
    open spec fn spec_enum(&self) -> Type {
        Type::INT32
    }

    fn enum_type(&self) -> (t: Type) {
        Type::INT32
    }
}

impl ValueInfo for Int64 {
    open spec fn spec_enum(&self) -> Type {
        Type::INT64
    }

    fn enum_type(&self) -> (t: Type) {
        Type::INT64
    }
}

impl ValueInfo for Float32 {
    open spec fn spec_enum(&self) -> Type {
        Type::FLOAT32
    }

    fn enum_type(&self) -> (t: Type) {
        Type::FLOAT32
    }
}

impl ValueInfo for Float64 {
    open spec fn spec_enum(&self) -> Type {
        Type::FLOAT64
    }

    fn enum_type(&self) -> (t: Type) {
        Type::FLOAT64
    }
}

impl ValueInfo for Boolean {
    open spec fn spec_enum(&self) -> Type {
        Type::BOOLEAN
    }

    fn enum_type(&self) -> (t: Type) {
        Type::BOOLEAN
    }
}

impl ValueInfo for Text {
    open spec fn spec_enum(&self) -> Type {
        Type::TEXT
    }

    fn enum_type(&self) -> (t: Type) {
        Type::TEXT
    }
}

impl ValueInfo for Blob {
    open spec fn spec_enum(&self) -> Type {
        Type::BLOB
    }

    fn enum_type(&self) -> (t: Type) {
        Type::BLOB
    }
}

impl core::str::FromStr for Type {
    type Err = DBError;

    fn from_str(s: &str) -> Result<Type, DBError> {
        Type::parse(s)
    }
}

/// Round-trip law: parsing the canonical name of any kind yields exactly
/// that kind back.
pub proof fn lemma_parse_name_roundtrip(t: Type)
    ensures
        spec_parse(spec_name(t)) == Option::Some(t),
{
    reveal_strlit("UINT32");
    reveal_strlit("UINT64");
    reveal_strlit("INT32");
    reveal_strlit("INT64");
    reveal_strlit("FLOAT32");
    reveal_strlit("FLOAT64");
    reveal_strlit("BOOLEAN");
    reveal_strlit("TEXT");
    reveal_strlit("BLOB");
    assert("UINT32"@.len() == 6);
    assert("UINT64"@.len() == 6);
    assert("INT32"@.len() == 5);
    assert("INT64"@.len() == 5);
    assert("FLOAT32"@.len() == 7);
    assert("FLOAT64"@.len() == 7);
    assert("BOOLEAN"@.len() == 7);
    assert("TEXT"@.len() == 4);
    assert("BLOB"@.len() == 4);
    assert("UINT64"@[4] == '6' && "UINT32"@[4] == '3');
    assert("INT64"@[3] == '6' && "INT32"@[3] == '3');
    assert("FLOAT64"@[5] == '6' && "FLOAT32"@[5] == '3');
    assert("BOOLEAN"@[0] == 'B' && "FLOAT32"@[0] == 'F' && "FLOAT64"@[0] == 'F');
    assert("BLOB"@[0] == 'B' && "TEXT"@[0] == 'T');
}

/// Every kind occupies at least one byte of storage.
pub proof fn lemma_width_positive(t: Type)
    ensures
        spec_width(t) > 0,
{
}

} // verus!
