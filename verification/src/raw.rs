//! Non-owning raw view over the bytes backing a variable-length value.

use vstd::prelude::*;
use vstd::string::StringSliceAdditionalSpecFns;
use vstd::utf8::decode_utf8;
use vstd::utf8::encode_utf8_decode_utf8;
use vstd::utf8::valid_utf8;

verus! {

/// Relies on core::str::from_utf8: given valid UTF-8 input it returns `Ok`
/// with a string slice over exactly the given bytes.
#[verifier::external_body]
fn utf8_bytes_as_str(bytes: &[u8]) -> (r: &str)
    requires
        valid_utf8(bytes@),
    ensures
        r.spec_bytes() == bytes@,
{
    core::str::from_utf8(bytes).unwrap()
}

/// Non-owning view of the bytes backing a variable-length column value:
/// either a borrowed byte range, or the canonical absent view. The view
/// never owns or outlives the storage that holds the bytes.
#[derive(Clone, Copy)]
pub struct RawData<'a> {
    /// The borrowed byte range, or `None` for the canonical absent view.
    pub data: Option<&'a [u8]>,
}

impl<'a> RawData<'a> {
    /// The byte sequence this view denotes; the absent view denotes the
    /// empty sequence.
    pub open spec fn view(&self) -> Seq<u8> {
        match self.data {
            Option::Some(b) => b@,
            Option::None => Seq::<u8>::empty(),
        }
    }

    /// Whether the view carries a byte range at all, as opposed to the
    /// canonical absent view. Absent is distinct from present-but-empty.
    pub open spec fn is_present(&self) -> bool {
        self.data is Some
    }

    /// View over the given borrowed bytes.
    pub fn new(bytes: &'a [u8]) -> (r: RawData<'a>)
        ensures
            r@ == bytes@,
            r.is_present(),
    {
        RawData { data: Some(bytes) }
    }

    /// The canonical absent view: no byte range, length zero.
    pub fn absent() -> (r: RawData<'a>)
        ensures
            !r.is_present(),
            r@ == Seq::<u8>::empty(),
    {
        RawData { data: None }
    }

    /// Number of bytes the view denotes; zero for the absent view.
    pub fn size(&self) -> (n: usize)
        ensures
            n == self@.len(),
    {
        match self.data {
            Some(b) => b.len(),
            None => 0,
        }
    }

    /// The viewed bytes as a read-only slice; the absent view yields the
    /// empty slice.
    pub fn as_bytes(&self) -> (r: &'a [u8])
        ensures
            r@ == self@,
    {
        match self.data {
            Some(b) => b,
            None => &[],
        }
    }

    /// The viewed bytes reinterpreted as text. The caller must already know
    /// the bytes are valid encoded text (written by a text-kind producer):
    /// no validation is owed here, so invalid bytes are excluded up front.
    pub fn as_text(&self) -> (r: &'a str)
        requires
            valid_utf8(self@),
        ensures
            r@ == decode_utf8(self@),
            r.spec_bytes() == self@,
    {
        let bytes = self.as_bytes();
        let r = utf8_bytes_as_str(bytes);
        proof {
            encode_utf8_decode_utf8(r@);
        }
        r
    }

    /// The absent view, and any view of length zero, denote the empty byte
    /// sequence, which is exactly what `as_bytes` yields for them.
    pub proof fn lemma_empty_view(&self)
        ensures
            self@.len() == 0 ==> self@ == Seq::<u8>::empty(),
            !self.is_present() ==> self@ == Seq::<u8>::empty(),
    {
        if self@.len() == 0 {
            assert(self@ =~= Seq::<u8>::empty());
        }
    }

    /// Copy of the viewed text into a new owned string, for a value that
    /// must outlive the storage backing this view.
    pub fn to_owned_string(&self) -> (r: String)
        requires
            valid_utf8(self@),
        ensures
            r@ == decode_utf8(self@),
    {
        self.as_text().to_owned()
    }
}

} // verus!
