//! Conditionally-owned decode results for text and raw bytes.
//!
//! A decoded string or byte sequence is held in a container that borrows from
//! the original input buffer whenever the decoder can hand out a slice that
//! lives as long as that buffer, and owns a freshly allocated copy only when
//! the data had to be synthesized (escape processing, transient buffers).
//! The tag is a storage optimization: the logical content is the same either
//! way, and equality looks only at the content.

use vstd::prelude::*;

use std::borrow::Cow;
use vstd::std_specs::cmp::PartialEqSpec;
use vstd::utf8::encode_utf8_decode_utf8;

pub mod bytes;
pub mod text;

verus! {

/// An error raised by the deserialization engine beneath the decode entry
/// points. This layer performs no recovery: the engine's report is carried
/// through unchanged.
#[derive(Debug)]
pub struct DecodeError {
    /// The engine's description of what went wrong.
    pub message: String,
}

/// A wrapper around `Cow<str>` holding decoded text that borrows from the
/// input buffer whenever the decoder could hand out a long-lived slice.
pub struct CowStr<'de>(pub Cow<'de, str>);

impl<'de> View for CowStr<'de> {
    type V = Seq<char>;

    open spec fn view(&self) -> Seq<char> {
        self.0@
    }
}

impl<'de> CowStr<'de> {
    /// True when the container aliases the input buffer instead of owning an
    /// independent copy.
    pub open spec fn spec_borrowed(&self) -> bool {
        self.0 is Borrowed
    }

    pub fn is_borrowed(&self) -> (r: bool)
        ensures
            r == self.spec_borrowed(),
    {
        match &self.0 {
            Cow::Borrowed(_) => true,
            Cow::Owned(_) => false,
        }
    }

    /// The logical content. The encode direction emits exactly this, so the
    /// tag is invisible on the wire.
    pub fn as_str(&self) -> (r: &str)
        ensures
            r@ == self@,
    {
        match &self.0 {
            Cow::Borrowed(s) => s,
            Cow::Owned(s) => s.as_str(),
        }
    }
}

impl<'de> PartialEq for CowStr<'de> {
    fn eq(&self, other: &Self) -> (r: bool) {
        let a = self.as_str();
        let b = other.as_str();
        let r = bytes_eq(a.as_bytes(), b.as_bytes());
        proof {
            encode_utf8_decode_utf8(self@);
            encode_utf8_decode_utf8(other@);
        }
        r
    }
}

impl<'de> vstd::std_specs::cmp::PartialEqSpecImpl for CowStr<'de> {
    open spec fn obeys_eq_spec() -> bool {
        true
    }

    open spec fn eq_spec(&self, other: &Self) -> bool {
        self@ == other@
    }
}

/// A wrapper around `Cow<[u8]>` holding a decoded byte sequence that borrows
/// from the input buffer whenever the decoder could hand out a long-lived
/// slice.
pub struct CowBytes<'de>(pub Cow<'de, [u8]>);

impl<'de> View for CowBytes<'de> {
    type V = Seq<u8>;

    open spec fn view(&self) -> Seq<u8> {
        self.0@
    }
}

impl<'de> CowBytes<'de> {
    /// True when the container aliases the input buffer instead of owning an
    /// independent copy.
    pub open spec fn spec_borrowed(&self) -> bool {
        self.0 is Borrowed
    }

    pub fn is_borrowed(&self) -> (r: bool)
        ensures
            r == self.spec_borrowed(),
    {
        match &self.0 {
            Cow::Borrowed(_) => true,
            Cow::Owned(_) => false,
        }
    }

    /// The logical content. The encode direction emits exactly this, so the
    /// tag is invisible on the wire.
    pub fn as_slice(&self) -> (r: &[u8])
        ensures
            r@ == self@,
    {
        match &self.0 {
            Cow::Borrowed(b) => b,
            Cow::Owned(v) => v.as_slice(),
        }
    }
}

impl<'de> PartialEq for CowBytes<'de> {
    fn eq(&self, other: &Self) -> (r: bool) {
        bytes_eq(self.as_slice(), other.as_slice())
    }
}

impl<'de> vstd::std_specs::cmp::PartialEqSpecImpl for CowBytes<'de> {
    open spec fn obeys_eq_spec() -> bool {
        true
    }

    open spec fn eq_spec(&self, other: &Self) -> bool {
        self@ == other@
    }
}

/// Content-equivalence law for text: equality between two containers holds
/// exactly when their logical content is equal, so a Borrowed and an Owned
/// container with the same content are interchangeable and the tag is never
/// observable through `==`.
pub proof fn lemma_str_content_equivalence<'de>(a: CowStr<'de>, b: CowStr<'de>)
    ensures
        a.eq_spec(&b) <==> a@ == b@,
{
}

/// Content-equivalence law for byte sequences: equality between two
/// containers holds exactly when their logical content is equal, so a
/// Borrowed and an Owned container with the same content are interchangeable
/// and the tag is never observable through `==`.
pub proof fn lemma_bytes_content_equivalence<'de>(a: CowBytes<'de>, b: CowBytes<'de>)
    ensures
        a.eq_spec(&b) <==> a@ == b@,
{
}

fn bytes_eq(x: &[u8], y: &[u8]) -> (r: bool)
    ensures
        r == (x@ == y@),
{
    if x.len() != y.len() {
        return false;
    }
    let mut i: usize = 0;
    while i < x.len()
        invariant
            0 <= i <= x@.len(),
            x@.len() == y@.len(),
            forall|j: int| 0 <= j < i ==> x@[j] == y@[j],
        decreases x@.len() - i,
    {
        if x[i] != y[i] {
            return false;
        }
        i += 1;
    }
    proof {
        assert(x@ =~= y@);
    }
    true
}

} // verus!
