//! The dispatch handler and decode entry point for text.

use vstd::prelude::*;

use std::borrow::Cow;

use crate::CowStr;
use crate::DecodeError;

verus! {

/// The shapes in which a conforming deserialization engine may deliver a
/// decoded piece of text. The set is closed: an engine picks exactly one per
/// decode, based on how the source data is actually stored.
pub enum StrDelivery<'de, 'a> {
    /// A contiguous slice guaranteed to stay valid for the whole lifetime of
    /// the input buffer.
    BorrowedRegion(&'de str),
    /// A contiguous slice valid only for the duration of the callback, e.g.
    /// assembled in a buffer the engine may reuse.
    TransientRegion(&'a str),
    /// A buffer the engine already owns and hands over, e.g. built
    /// incrementally while resolving escape sequences.
    OwnedBuffer(String),
}

impl<'de, 'a> View for StrDelivery<'de, 'a> {
    type V = Seq<char>;

    open spec fn view(&self) -> Seq<char> {
        match self {
            StrDelivery::BorrowedRegion(s) => s@,
            StrDelivery::TransientRegion(s) => s@,
            StrDelivery::OwnedBuffer(s) => s@,
        }
    }
}

/// The dispatch handler for text: turns each delivery shape into the
/// matching `CowStr` variant, borrowing whenever the engine allows it.
pub struct CowStrVisitor;

impl CowStrVisitor {
    /// The expectation description an engine reports on a type mismatch.
    pub fn expecting(&self) -> (r: &'static str)
        ensures
            r@ == "a string"@,
    {
        "a string"
    }

    /// Borrowed-region delivery: keep the engine's slice itself, so the
    /// result aliases the input buffer and nothing is allocated.
    pub fn visit_borrowed_str<'de>(self, val: &'de str) -> (r: CowStr<'de>)
        ensures
            r.0 matches Cow::Borrowed(s) && s == val,
            r@ == val@,
            r.spec_borrowed(),
    {
        CowStr(Cow::Borrowed(val))
    }

    /// Transient-region delivery: the slice may not outlive the callback, so
    /// its content is copied into a fresh owned buffer.
    pub fn visit_str<'de>(self, val: &str) -> (r: CowStr<'de>)
        ensures
            r@ == val@,
            !r.spec_borrowed(),
    {
        self.visit_string(val.to_owned())
    }

    /// Owned-buffer delivery: take ownership of the engine's buffer as it
    /// stands, with no further copy.
    pub fn visit_string<'de>(self, val: String) -> (r: CowStr<'de>)
        ensures
            r.0 matches Cow::Owned(s) && s == val,
            r@ == val@,
            !r.spec_borrowed(),
    {
        CowStr(Cow::Owned(val))
    }

    /// Convert one delivery notification into the value container. The result
    /// holds the delivered content exactly, and is tagged Borrowed precisely
    /// when the engine guaranteed the region outlives the input buffer.
    pub fn visit<'de, 'a>(self, delivery: StrDelivery<'de, 'a>) -> (r: CowStr<'de>)
        ensures
            r@ == delivery@,
            r.spec_borrowed() <==> delivery is BorrowedRegion,
            delivery matches StrDelivery::BorrowedRegion(s) ==> (r.0 matches Cow::Borrowed(b)
                && b == s),
            delivery matches StrDelivery::OwnedBuffer(s) ==> (r.0 matches Cow::Owned(o) && o == s),
    {
        match delivery {
            StrDelivery::BorrowedRegion(val) => self.visit_borrowed_str(val),
            StrDelivery::TransientRegion(val) => self.visit_str(val),
            StrDelivery::OwnedBuffer(val) => self.visit_string(val),
        }
    }
}

/// The decode entry point for text. `outcome` is what the engine produced:
/// either one delivery notification or its error. A delivery becomes a fully
/// populated container through the dispatch handler; an error is surfaced
/// unchanged, and no container is produced.
pub fn decode_str<'de, 'a>(outcome: Result<StrDelivery<'de, 'a>, DecodeError>) -> (r: Result<
    CowStr<'de>,
    DecodeError,
>)
    ensures
        outcome matches Ok(d) ==> (r matches Ok(c) && c@ == d@ && (c.spec_borrowed()
            <==> d is BorrowedRegion)),
        outcome matches Err(e) ==> r matches Err(e2) && e2 == e,
{
    match outcome {
        Ok(delivery) => Ok(CowStrVisitor.visit(delivery)),
        Err(e) => Err(e),
    }
}

/// Round-trip law for text: whichever delivery shape the engine chose and
/// whichever tag the handler picked, the content the encode direction emits
/// for the decoded container is the content that was delivered.
pub proof fn lemma_str_round_trip<'de, 'a>(
    delivery: StrDelivery<'de, 'a>,
    decoded: CowStr<'de>,
    emitted: Seq<char>,
)
    requires
        decoded@ == delivery@,
        emitted == decoded@,
    ensures
        emitted == delivery@,
{
}

} // verus!
