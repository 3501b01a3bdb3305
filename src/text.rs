//! `BytesString`: UTF-8 text held in a shared byte buffer.

use vstd::prelude::*;
use vstd::string::StringSliceAdditionalSpecFns;
use bytes::Bytes;
use crate::buffer::{
    buffer_content, buffer_copy, buffer_empty, buffer_from_string, buffer_slice, utf8_text,
};
use vstd::utf8::{decode_utf8, encode_utf8, valid_utf8};
use vstd::utf8::{decode_utf8_encode_utf8, encode_utf8_decode_utf8, encode_utf8_valid_utf8};
use core::cmp::Ordering;
use vstd::std_specs::cmp::{PartialEqSpec, PartialOrdSpec};

verus! {

/// Lexicographic order of two byte sequences, the order of `str` and `[u8]`.
pub open spec fn lex_cmp(a: Seq<u8>, b: Seq<u8>) -> Ordering
    decreases a.len(),
{
    if a.len() == 0 {
        if b.len() == 0 { Ordering::Equal } else { Ordering::Less }
    } else if b.len() == 0 {
        Ordering::Greater
    } else if a[0] < b[0] {
        Ordering::Less
    } else if a[0] > b[0] {
        Ordering::Greater
    } else {
        lex_cmp(a.drop_first(), b.drop_first())
    }
}

/// The characters of a string slice.
pub open spec fn text_of(s: &str) -> Seq<char> {
    s@
}

/// The bytes of a byte slice.
pub open spec fn slice_of(s: &[u8]) -> Seq<u8> {
    s@
}

/// A string atop a bytes value.
///
/// Wraps a `Bytes` value that holds correctly encoded UTF-8 and provides a
/// `str` interface to it. Clones share the buffer.
#[derive(Debug, Hash, Eq, Ord)]
pub struct BytesString(Bytes);

impl View for BytesString {
    type V = Seq<char>;

    /// The characters that the bytes encode.
    open spec fn view(&self) -> Seq<char> {
        decode_utf8(self.bytes())
    }
}

impl BytesString {
    /// The bytes held by the string.
    pub closed spec fn bytes(&self) -> Seq<u8> {
        buffer_content(self.0)
    }

    /// The content of every live string is valid UTF-8.
    #[verifier::type_invariant]
    spec fn inv(&self) -> bool {
        valid_utf8(self.bytes())
    }

    /// Creates a new bytes string without checking the content.
    ///
    /// The caller vouches that the buffer holds valid UTF-8; verified
    /// callers are held to it by the precondition. A caller outside
    /// verification that breaks it gets a string whose invariant fails:
    /// its text view, `as_str`, is then the empty text.
    pub fn from_utf8_unchecked(bytes: Bytes) -> (r: Self)
        requires
            valid_utf8(buffer_content(bytes)),
        ensures
            r.bytes() == buffer_content(bytes),
    {
        BytesString(bytes)
    }

    /// Converts a bytes value into a bytes string, or fails where it does
    /// not hold valid UTF-8.
    pub fn from_utf8(bytes: Bytes) -> (r: Result<Self, core::str::Utf8Error>)
        ensures
            r is Ok <==> valid_utf8(buffer_content(bytes)),
            r matches Ok(s) ==> s.bytes() == buffer_content(bytes),
    {
        let checked = utf8_text(buffer_slice(&bytes));
        match checked {
            Ok(_) => Ok(BytesString(bytes)),
            Err(e) => Err(e),
        }
    }

    /// Creates an empty bytes string.
    pub fn empty() -> (r: Self)
        ensures
            r.bytes() == Seq::<u8>::empty(),
            r@ == Seq::<char>::empty(),
    {
        BytesString(buffer_empty())
    }

    /// Converts an owned string, taking over its bytes.
    pub fn from_string(s: String) -> (r: Self)
        ensures
            r.bytes() == encode_utf8(s@),
            r@ == s@,
    {
        proof {
            encode_utf8_valid_utf8(s@);
            encode_utf8_decode_utf8(s@);
        }
        BytesString(buffer_from_string(s))
    }

    /// Converts a string slice, copying its bytes into a new buffer.
    pub fn from_str_slice(s: &str) -> (r: Self)
        ensures
            r.bytes() == encode_utf8(s@),
            r@ == s@,
    {
        proof {
            encode_utf8_valid_utf8(s@);
            encode_utf8_decode_utf8(s@);
        }
        BytesString(buffer_copy(s.as_bytes()))
    }

    /// Returns a reference to the underlying bytes value.
    pub fn as_bytes(&self) -> (r: &Bytes)
        ensures
            buffer_content(*r) == self.bytes(),
    {
        &self.0
    }

    /// Returns a reference to the string content.
    ///
    /// The bytes are read as text through the checked conversion, since no
    /// unchecked one is used here; the type invariant proves that it
    /// succeeds, so the error arm is never taken.
    pub fn as_str(&self) -> (r: &str)
        ensures
            r@ == self@,
            r.spec_bytes() == self.bytes(),
    {
        proof {
            use_type_invariant(self);
            decode_utf8_encode_utf8(self.bytes());
        }
        match utf8_text(self.as_slice()) {
            Ok(s) => {
                proof { encode_utf8_decode_utf8(s@); }
                s
            },
            Err(_) => {
                proof { assert(false); }
                ""
            },
        }
    }

    /// The text, as an owned string; what `Display` would render.
    pub fn to_string(&self) -> (r: String)
        ensures
            r@ == self@,
    {
        self.as_str().to_owned()
    }

    /// Returns a reference to the raw byte slice.
    pub fn as_slice(&self) -> (r: &[u8])
        ensures
            r@ == self.bytes(),
            valid_utf8(r@),
    {
        proof { use_type_invariant(self); }
        buffer_slice(&self.0)
    }
}

/// Whether two byte slices hold the same bytes.
fn same_bytes(a: &[u8], b: &[u8]) -> (r: bool)
    ensures
        r == (a@ == b@),
{
    if a.len() != b.len() {
        return false;
    }
    let mut i: usize = 0;
    while i < a.len()
        invariant
            a@.len() == b@.len(),
            i <= a@.len(),
            forall|j: int| 0 <= j < i ==> a@[j] == b@[j],
        decreases a@.len() - i,
    {
        if a[i] != b[i] {
            return false;
        }
        i = i + 1;
    }
    proof { assert(a@ =~= b@); }
    true
}

/// Compares two byte slices lexicographically.
fn compare_bytes(a: &[u8], b: &[u8]) -> (r: Ordering)
    ensures
        r == lex_cmp(a@, b@),
{
    let mut i: usize = 0;
    proof {
        assert(a@.skip(0) =~= a@);
        assert(b@.skip(0) =~= b@);
    }
    while i < a.len() && i < b.len()
        invariant
            i <= a@.len(),
            i <= b@.len(),
            lex_cmp(a@, b@) == lex_cmp(a@.skip(i as int), b@.skip(i as int)),
        decreases a@.len() - i,
    {
        if a[i] < b[i] {
            return Ordering::Less;
        }
        if a[i] > b[i] {
            return Ordering::Greater;
        }
        proof {
            assert(a@.skip(i as int).drop_first() =~= a@.skip(i + 1));
            assert(b@.skip(i as int).drop_first() =~= b@.skip(i + 1));
        }
        i = i + 1;
    }
    if i < a.len() {
        Ordering::Greater
    } else if i < b.len() {
        Ordering::Less
    } else {
        Ordering::Equal
    }
}

/// Two strings are equal exactly where their bytes are.
proof fn lemma_text_eq_iff_bytes_eq(a: &BytesString, b: &BytesString)
    requires
        valid_utf8(a.bytes()),
        valid_utf8(b.bytes()),
    ensures
        (a@ == b@) == (a.bytes() == b.bytes()),
{
    decode_utf8_encode_utf8(a.bytes());
    decode_utf8_encode_utf8(b.bytes());
}

/// Equality is by content: two strings built by any paths are equal exactly
/// when they hold the same bytes, whatever buffers back them.
pub proof fn lemma_eq_by_content(a: BytesString, b: BytesString)
    requires
        valid_utf8(a.bytes()),
        valid_utf8(b.bytes()),
    ensures
        a.eq_spec(&b) <==> a.bytes() == b.bytes(),
{
    lemma_text_eq_iff_bytes_eq(&a, &b);
}

/// The empty string and the default string are equal, and both hold no text.
pub proof fn lemma_empty_is_default(e: BytesString, d: BytesString)
    requires
        e.bytes() == Seq::<u8>::empty(),
        d.bytes() == Seq::<u8>::empty(),
    ensures
        e.eq_spec(&d),
        e@ == Seq::<char>::empty(),
{
}

/// The byte view and the text view of a string describe the same bytes.
/// Each view is a function of the string alone, so repeated calls of an
/// accessor agree with each other and with the other accessors.
pub proof fn lemma_views_agree(s: BytesString)
    requires
        valid_utf8(s.bytes()),
    ensures
        encode_utf8(s@) == s.bytes(),
{
    decode_utf8_encode_utf8(s.bytes());
}

/// Lexicographic comparison finds two byte sequences equal exactly when
/// they are.
proof fn lemma_lex_equal_iff_same(a: Seq<u8>, b: Seq<u8>)
    ensures
        (lex_cmp(a, b) == Ordering::Equal) == (a == b),
    decreases a.len(),
{
    if a.len() > 0 && b.len() > 0 && a[0] == b[0] {
        lemma_lex_equal_iff_same(a.drop_first(), b.drop_first());
        if a.drop_first() == b.drop_first() {
            assert(a =~= seq![a[0]] + a.drop_first());
            assert(b =~= seq![b[0]] + b.drop_first());
        } else if a == b {
            assert(a.drop_first() == b.drop_first());
        }
    } else if a.len() > 0 && b.len() > 0 {
        assert(a[0] != b[0]);
        if a == b {
            assert(a[0] == b[0]);
        }
    } else if a.len() != b.len() {
        assert(a != b);
    } else {
        assert(a =~= b);
    }
}

/// Ordering agrees with equality: two strings compare as equal exactly
/// when they are equal.
pub proof fn lemma_cmp_agrees_with_eq(a: BytesString, b: BytesString)
    requires
        valid_utf8(a.bytes()),
        valid_utf8(b.bytes()),
    ensures
        (a.partial_cmp_spec(&b) == Some(Ordering::Equal)) <==> a.eq_spec(&b),
{
    lemma_lex_equal_iff_same(a.bytes(), b.bytes());
    lemma_text_eq_iff_bytes_eq(&a, &b);
}

/// Compares the text of two strings.
impl PartialEq for BytesString {
    fn eq(&self, other: &BytesString) -> (r: bool) {
        proof {
            use_type_invariant(self);
            use_type_invariant(other);
            lemma_text_eq_iff_bytes_eq(self, other);
        }
        same_bytes(self.as_slice(), other.as_slice())
    }
}

impl vstd::std_specs::cmp::PartialEqSpecImpl for BytesString {
    open spec fn obeys_eq_spec() -> bool {
        true
    }

    open spec fn eq_spec(&self, other: &BytesString) -> bool {
        self@ == other@
    }
}

/// Orders strings as `str` does: by their bytes, lexicographically.
impl PartialOrd for BytesString {
    fn partial_cmp(&self, other: &BytesString) -> (r: Option<Ordering>) {
        Some(compare_bytes(self.as_slice(), other.as_slice()))
    }
}

impl vstd::std_specs::cmp::PartialOrdSpecImpl for BytesString {
    open spec fn obeys_partial_cmp_spec() -> bool {
        true
    }

    open spec fn partial_cmp_spec(&self, other: &BytesString) -> Option<Ordering> {
        Some(lex_cmp(self.bytes(), other.bytes()))
    }
}

/// Whether a string's bytes encode the given text.
proof fn lemma_text_eq_iff_encoding_eq(a: &BytesString, t: Seq<char>)
    requires
        valid_utf8(a.bytes()),
    ensures
        (a@ == t) == (a.bytes() == encode_utf8(t)),
{
    decode_utf8_encode_utf8(a.bytes());
    encode_utf8_decode_utf8(t);
}

/// Equality with a string slice is by content too: it holds exactly when the
/// string's bytes are the slice's bytes.
pub proof fn lemma_eq_str_by_content(a: BytesString, t: &str)
    requires
        valid_utf8(a.bytes()),
    ensures
        <BytesString as PartialEqSpec<str>>::eq_spec(&a, t) <==> a.bytes() == t.spec_bytes(),
{
    lemma_text_eq_iff_encoding_eq(&a, t@);
}

/// Compares the text of a string with a string slice.
impl PartialEq<str> for BytesString {
    fn eq(&self, other: &str) -> (r: bool) {
        proof {
            use_type_invariant(self);
            lemma_text_eq_iff_encoding_eq(self, other@);
        }
        same_bytes(self.as_slice(), other.as_bytes())
    }
}

impl vstd::std_specs::cmp::PartialEqSpecImpl<str> for BytesString {
    open spec fn obeys_eq_spec() -> bool {
        true
    }

    open spec fn eq_spec(&self, other: &str) -> bool {
        self@ == other@
    }
}

/// Compares the text of a string with a borrowed string slice.
impl<'a> PartialEq<&'a str> for BytesString {
    fn eq(&self, other: &&'a str) -> (r: bool) {
        proof {
            use_type_invariant(self);
            lemma_text_eq_iff_encoding_eq(self, (*other)@);
        }
        same_bytes(self.as_slice(), (*other).as_bytes())
    }
}

impl<'a> vstd::std_specs::cmp::PartialEqSpecImpl<&'a str> for BytesString {
    open spec fn obeys_eq_spec() -> bool {
        true
    }

    open spec fn eq_spec(&self, other: &&'a str) -> bool {
        self@ == (*other)@
    }
}

/// Compares the text of a string with an owned string.
impl PartialEq<String> for BytesString {
    fn eq(&self, other: &String) -> (r: bool) {
        proof {
            use_type_invariant(self);
            lemma_text_eq_iff_encoding_eq(self, other@);
        }
        same_bytes(self.as_slice(), other.as_str().as_bytes())
    }
}

impl vstd::std_specs::cmp::PartialEqSpecImpl<String> for BytesString {
    open spec fn obeys_eq_spec() -> bool {
        true
    }

    open spec fn eq_spec(&self, other: &String) -> bool {
        self@ == other@
    }
}

/// Orders a string against a string slice, by bytes as `str` does.
impl PartialOrd<str> for BytesString {
    fn partial_cmp(&self, other: &str) -> (r: Option<Ordering>) {
        Some(compare_bytes(self.as_slice(), other.as_bytes()))
    }
}

impl vstd::std_specs::cmp::PartialOrdSpecImpl<str> for BytesString {
    open spec fn obeys_partial_cmp_spec() -> bool {
        true
    }

    open spec fn partial_cmp_spec(&self, other: &str) -> Option<Ordering> {
        Some(lex_cmp(self.bytes(), other.spec_bytes()))
    }
}

/// Orders a string against a borrowed string slice.
impl<'a> PartialOrd<&'a str> for BytesString {
    fn partial_cmp(&self, other: &&'a str) -> (r: Option<Ordering>) {
        Some(compare_bytes(self.as_slice(), (*other).as_bytes()))
    }
}

impl<'a> vstd::std_specs::cmp::PartialOrdSpecImpl<&'a str> for BytesString {
    open spec fn obeys_partial_cmp_spec() -> bool {
        true
    }

    open spec fn partial_cmp_spec(&self, other: &&'a str) -> Option<Ordering> {
        Some(lex_cmp(self.bytes(), (*other).spec_bytes()))
    }
}

/// Orders a string against an owned string.
impl PartialOrd<String> for BytesString {
    fn partial_cmp(&self, other: &String) -> (r: Option<Ordering>) {
        Some(compare_bytes(self.as_slice(), other.as_str().as_bytes()))
    }
}

impl vstd::std_specs::cmp::PartialOrdSpecImpl<String> for BytesString {
    open spec fn obeys_partial_cmp_spec() -> bool {
        true
    }

    open spec fn partial_cmp_spec(&self, other: &String) -> Option<Ordering> {
        Some(lex_cmp(self.bytes(), encode_utf8(other@)))
    }
}

/// Clones the handle on the buffer; the bytes are shared, not copied.
impl Clone for BytesString {
    fn clone(&self) -> (r: Self)
        ensures
            r.bytes() == self.bytes(),
    {
        proof { use_type_invariant(self); }
        BytesString(self.0.clone())
    }
}

impl From<String> for BytesString {
    fn from(s: String) -> (r: Self)
        ensures
            r@ == s@,
    {
        Self::from_string(s)
    }
}

impl<'a> From<&'a str> for BytesString {
    fn from(s: &'a str) -> (r: Self)
        ensures
            r@ == s@,
    {
        Self::from_str_slice(s)
    }
}

/// What a conversion returns is stated by the `from` methods themselves:
/// strings with equal text may differ in their buffers, so no single value
/// is named here.
impl vstd::std_specs::convert::FromSpecImpl<String> for BytesString {
    open spec fn obeys_from_spec() -> bool {
        false
    }

    open spec fn from_spec(v: String) -> BytesString {
        choose|r: BytesString| r@ == v@
    }
}

impl<'a> vstd::std_specs::convert::FromSpecImpl<&'a str> for BytesString {
    open spec fn obeys_from_spec() -> bool {
        false
    }

    open spec fn from_spec(v: &'a str) -> BytesString {
        choose|r: BytesString| r@ == v@
    }
}

impl core::ops::Deref for BytesString {
    type Target = str;

    fn deref(&self) -> (r: &str)
        ensures
            r@ == self@,
    {
        self.as_str()
    }
}

impl AsRef<Bytes> for BytesString {
    fn as_ref(&self) -> (r: &Bytes)
        ensures
            buffer_content(*r) == self.bytes(),
    {
        self.as_bytes()
    }
}

impl AsRef<str> for BytesString {
    fn as_ref(&self) -> (r: &str)
        ensures
            text_of(r) == self@,
    {
        self.as_str()
    }
}

impl AsRef<[u8]> for BytesString {
    fn as_ref(&self) -> (r: &[u8])
        ensures
            slice_of(r) == self.bytes(),
    {
        self.as_slice()
    }
}

impl core::borrow::Borrow<Bytes> for BytesString {
    fn borrow(&self) -> (r: &Bytes)
        ensures
            buffer_content(*r) == self.bytes(),
    {
        self.as_bytes()
    }
}

// There is no `Borrow<str>`: `Borrow` asks that a value and its borrow hash
// alike, and the derived `Hash` hashes the bytes as `[u8]`, which `str`
// does not.
impl core::borrow::Borrow<[u8]> for BytesString {
    fn borrow(&self) -> (r: &[u8])
        ensures
            slice_of(r) == self.bytes(),
    {
        self.as_slice()
    }
}

impl Default for BytesString {
    /// The empty string.
    fn default() -> (r: Self)
        ensures
            r.bytes() == Seq::<u8>::empty(),
            r@ == Seq::<char>::empty(),
    {
        Self::empty()
    }
}

} // verus!
