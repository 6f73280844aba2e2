//! The dispatch handler and decode entry point for raw byte sequences.

use vstd::prelude::*;

use std::borrow::Cow;

use crate::CowBytes;
use crate::DecodeError;

verus! {

/// The shapes in which a conforming deserialization engine may deliver a
/// decoded byte sequence. The set is closed: an engine picks exactly one per
/// decode, based on how the source data is actually stored.
pub enum BytesDelivery<'de, 'a> {
    /// A contiguous slice guaranteed to stay valid for the whole lifetime of
    /// the input buffer.
    BorrowedRegion(&'de [u8]),
    /// A contiguous slice valid only for the duration of the callback, e.g.
    /// assembled in a buffer the engine may reuse.
    TransientRegion(&'a [u8]),
    /// A buffer the engine already owns and hands over, e.g. built
    /// incrementally while undoing the format's framing.
    OwnedBuffer(Vec<u8>),
}

impl<'de, 'a> View for BytesDelivery<'de, 'a> {
    type V = Seq<u8>;

    open spec fn view(&self) -> Seq<u8> {
        match self {
            BytesDelivery::BorrowedRegion(b) => b@,
            BytesDelivery::TransientRegion(b) => b@,
            BytesDelivery::OwnedBuffer(b) => b@,
        }
    }
}

/// The dispatch handler for byte sequences: turns each delivery shape into
/// the matching `CowBytes` variant, borrowing whenever the engine allows it.
pub struct CowBytesVisitor;

impl CowBytesVisitor {
    /// The expectation description an engine reports on a type mismatch.
    pub fn expecting(&self) -> (r: &'static str)
        ensures
            r@ == "bytes"@,
    {
        "bytes"
    }

    /// Borrowed-region delivery: keep the engine's slice itself, so the
    /// result aliases the input buffer and nothing is allocated.
    pub fn visit_borrowed_bytes<'de>(self, val: &'de [u8]) -> (r: CowBytes<'de>)
        ensures
            r.0 matches Cow::Borrowed(s) && s == val,
            r@ == val@,
            r.spec_borrowed(),
    {
        CowBytes(Cow::Borrowed(val))
    }

    /// Transient-region delivery: the slice may not outlive the callback, so
    /// its content is copied into a fresh owned buffer.
    pub fn visit_bytes<'de>(self, val: &[u8]) -> (r: CowBytes<'de>)
        ensures
            r@ == val@,
            !r.spec_borrowed(),
    {
        self.visit_byte_buf(vstd::slice::slice_to_vec(val))
    }

    /// Owned-buffer delivery: take ownership of the engine's buffer as it
    /// stands, with no further copy.
    pub fn visit_byte_buf<'de>(self, val: Vec<u8>) -> (r: CowBytes<'de>)
        ensures
            r.0 matches Cow::Owned(s) && s == val,
            r@ == val@,
            !r.spec_borrowed(),
    {
        CowBytes(Cow::Owned(val))
    }

    /// Convert one delivery notification into the value container. The result
    /// holds the delivered content exactly, and is tagged Borrowed precisely
    /// when the engine guaranteed the region outlives the input buffer.
    pub fn visit<'de, 'a>(self, delivery: BytesDelivery<'de, 'a>) -> (r: CowBytes<'de>)
        ensures
            r@ == delivery@,
            r.spec_borrowed() <==> delivery is BorrowedRegion,
            delivery matches BytesDelivery::BorrowedRegion(s) ==> (r.0 matches Cow::Borrowed(b)
                && b == s),
            delivery matches BytesDelivery::OwnedBuffer(s) ==> (r.0 matches Cow::Owned(o)
                && o == s),
    {
        match delivery {
            BytesDelivery::BorrowedRegion(val) => self.visit_borrowed_bytes(val),
            BytesDelivery::TransientRegion(val) => self.visit_bytes(val),
            BytesDelivery::OwnedBuffer(val) => self.visit_byte_buf(val),
        }
    }
}

/// The decode entry point for byte sequences. `outcome` is what the engine
/// produced: either one delivery notification or its error. A delivery
/// becomes a fully populated container through the dispatch handler; an error
/// is surfaced unchanged, and no container is produced.
pub fn decode_bytes<'de, 'a>(outcome: Result<BytesDelivery<'de, 'a>, DecodeError>) -> (r: Result<
    CowBytes<'de>,
    DecodeError,
>)
    ensures
        outcome matches Ok(d) ==> (r matches Ok(c) && c@ == d@ && (c.spec_borrowed()
            <==> d is BorrowedRegion)),
        outcome matches Err(e) ==> r matches Err(e2) && e2 == e,
{
    match outcome {
        Ok(delivery) => Ok(CowBytesVisitor.visit(delivery)),
        Err(e) => Err(e),
    }
}

/// Round-trip law for byte sequences: whichever delivery shape the engine
/// chose and whichever tag the handler picked, the content the encode
/// direction emits for the decoded container is the content that was
/// delivered.
pub proof fn lemma_bytes_round_trip<'de, 'a>(
    delivery: BytesDelivery<'de, 'a>,
    decoded: CowBytes<'de>,
    emitted: Seq<u8>,
)
    requires
        decoded@ == delivery@,
        emitted == decoded@,
    ensures
        emitted == delivery@,
{
}

} // verus!
