//! The shared byte buffer that a `BytesString` is built upon.
//!
//! `bytes::Bytes` is an outside type: what Verus knows of it is what the
//! items in this module state. Its content is named by `buffer_content`.

use vstd::prelude::*;
use vstd::string::StringSliceAdditionalSpecFns;
use bytes::Bytes;
use vstd::utf8::{encode_utf8, valid_utf8};

verus! {

#[verifier::external_type_specification]
#[verifier::external_body]
pub struct ExBytes(Bytes);

/// The bytes that a buffer holds, in order.
pub uninterp spec fn buffer_content(b: Bytes) -> Seq<u8>;

/// Relies on `<Bytes as Clone>::clone`: a new handle on the same bytes.
pub assume_specification[ <Bytes as Clone>::clone ](b: &Bytes) -> (r: Bytes)
    ensures
        buffer_content(r) == buffer_content(*b),
;

/// Relies on `Bytes::new`: a buffer that holds no bytes.
#[verifier::external_body]
pub(crate) fn buffer_empty() -> (r: Bytes)
    ensures
        buffer_content(r) == Seq::<u8>::empty(),
{
    Bytes::new()
}

/// Relies on `Bytes::copy_from_slice`: a new buffer holding a copy of `data`.
#[verifier::external_body]
pub(crate) fn buffer_copy(data: &[u8]) -> (r: Bytes)
    ensures
        buffer_content(r) == data@,
{
    Bytes::copy_from_slice(data)
}

/// Relies on `<Bytes as From<String>>::from`: the buffer takes over the
/// string's UTF-8 encoding without copying it.
#[verifier::external_body]
pub(crate) fn buffer_from_string(s: String) -> (r: Bytes)
    ensures
        buffer_content(r) == encode_utf8(s@),
{
    Bytes::from(s)
}

/// Relies on `<Bytes as AsRef<[u8]>>::as_ref`: a view of the buffer's bytes.
#[verifier::external_body]
pub(crate) fn buffer_slice(b: &Bytes) -> (r: &[u8])
    ensures
        r@ == buffer_content(*b),
{
    b.as_ref()
}

#[verifier::external_type_specification]
#[verifier::external_body]
pub struct ExUtf8Error(core::str::Utf8Error);

/// Relies on `core::str::from_utf8`: it succeeds exactly on valid UTF-8 and
/// then hands back a text view of the same bytes.
#[verifier::external_body]
pub(crate) fn utf8_text(b: &[u8]) -> (r: Result<&str, core::str::Utf8Error>)
    ensures
        r is Ok <==> valid_utf8(b@),
        r matches Ok(s) ==> s.spec_bytes() == b@,
{
    core::str::from_utf8(b)
}

} // verus!
