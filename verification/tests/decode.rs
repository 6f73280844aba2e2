use std::borrow::Cow;

use serde_cow::bytes::{decode_bytes, BytesDelivery, CowBytesVisitor};
use serde_cow::text::{decode_str, CowStrVisitor, StrDelivery};
use serde_cow::DecodeError;

#[test]
fn borrowed_text_is_zero_copy() {
    let source = "Hello World";
    let c = decode_str(Ok(StrDelivery::BorrowedRegion(source))).unwrap();
    assert!(c.is_borrowed());
    assert!(matches!(c.0, Cow::Borrowed(_)));
    assert_eq!(c.as_str(), "Hello World");
}

#[test]
fn owned_text_after_escape_processing() {
    // An engine that had to resolve the escape in `"Hello\nWorld"` hands over
    // the buffer it built; the handler takes ownership without copying again.
    let built = String::from("Hello\nWorld");
    let c = decode_str(Ok(StrDelivery::OwnedBuffer(built))).unwrap();
    assert!(!c.is_borrowed());
    assert!(matches!(c.0, Cow::Owned(_)));
    assert_eq!(c.as_str(), "Hello\nWorld");
}

#[test]
fn transient_text_is_copied() {
    let c;
    {
        let temporary = String::from("short lived");
        c = decode_str(Ok(StrDelivery::TransientRegion(temporary.as_str()))).unwrap();
    }
    assert!(!c.is_borrowed());
    assert_eq!(c.as_str(), "short lived");
}

#[test]
fn visit_borrowed_str_keeps_the_slice() {
    let source = "alpha";
    let c = CowStrVisitor.visit_borrowed_str(source);
    assert!(c.is_borrowed());
    assert_eq!(c.as_str(), "alpha");
}

#[test]
fn visit_string_takes_the_buffer() {
    let c = CowStrVisitor.visit_string(String::from("beta"));
    assert!(!c.is_borrowed());
    assert_eq!(c.as_str(), "beta");
}

#[test]
fn borrowed_bytes_are_zero_copy() {
    let source: [u8; 3] = [0x01, 0x02, 0x03];
    let c = decode_bytes(Ok(BytesDelivery::BorrowedRegion(&source))).unwrap();
    assert!(c.is_borrowed());
    assert!(matches!(c.0, Cow::Borrowed(_)));
    assert_eq!(c.as_slice(), &[0x01, 0x02, 0x03]);
}

#[test]
fn transient_bytes_are_copied() {
    let c;
    {
        let temporary = vec![9u8, 8, 7];
        c = decode_bytes(Ok(BytesDelivery::TransientRegion(temporary.as_slice()))).unwrap();
    }
    assert!(!c.is_borrowed());
    assert_eq!(c.as_slice(), &[9, 8, 7]);
}

#[test]
fn owned_byte_buffer_is_taken_over() {
    let built = vec![0xDEu8, 0xAD];
    let c = CowBytesVisitor.visit_byte_buf(built);
    assert!(!c.is_borrowed());
    assert_eq!(c.as_slice(), &[0xDE, 0xAD]);
}

#[test]
fn malformed_text_input_reports_engine_error() {
    let outcome = Err(DecodeError { message: String::from("unterminated string") });
    let r = decode_str(outcome);
    match r {
        Ok(_) => panic!("no container may be produced for malformed input"),
        Err(e) => assert_eq!(e.message, "unterminated string"),
    }
}

#[test]
fn malformed_bytes_input_reports_engine_error() {
    let outcome = Err(DecodeError { message: String::from("invalid framing") });
    let r = decode_bytes(outcome);
    match r {
        Ok(_) => panic!("no container may be produced for malformed input"),
        Err(e) => assert_eq!(e.message, "invalid framing"),
    }
}

#[test]
fn equal_content_text_containers_are_interchangeable() {
    let borrowed = CowStrVisitor.visit_borrowed_str("abc");
    let owned = CowStrVisitor.visit_string(String::from("abc"));
    assert!(borrowed.is_borrowed());
    assert!(!owned.is_borrowed());
    assert!(borrowed == owned);
    assert!(owned == borrowed);
    assert_eq!(borrowed.as_str(), owned.as_str());
}

#[test]
fn unequal_text_content_compares_unequal() {
    let a = CowStrVisitor.visit_borrowed_str("abc");
    let b = CowStrVisitor.visit_string(String::from("abd"));
    let c = CowStrVisitor.visit_borrowed_str("ab");
    assert!(a != b);
    assert!(a != c);
}

#[test]
fn equal_content_byte_containers_are_interchangeable() {
    let source: [u8; 2] = [1, 2];
    let borrowed = CowBytesVisitor.visit_borrowed_bytes(&source);
    let owned = CowBytesVisitor.visit_byte_buf(vec![1u8, 2]);
    assert!(borrowed == owned);
    assert!(owned == borrowed);
}

#[test]
fn unequal_byte_content_compares_unequal() {
    let source: [u8; 2] = [1, 2];
    let a = CowBytesVisitor.visit_borrowed_bytes(&source);
    let b = CowBytesVisitor.visit_byte_buf(vec![1u8, 3]);
    let c = CowBytesVisitor.visit_byte_buf(vec![1u8, 2, 3]);
    assert!(a != b);
    assert!(a != c);
}

#[test]
fn round_trip_preserves_content_for_every_delivery_shape() {
    // Decoding and then emitting the container's content reproduces what the
    // engine delivered, whichever delivery shape it chose.
    let source = "payload";
    let borrowed = decode_str(Ok(StrDelivery::BorrowedRegion(source))).unwrap();
    assert_eq!(borrowed.as_str(), source);

    let transient = decode_str(Ok(StrDelivery::TransientRegion("payload"))).unwrap();
    assert_eq!(transient.as_str(), source);

    let owned = decode_str(Ok(StrDelivery::OwnedBuffer(String::from("payload")))).unwrap();
    assert_eq!(owned.as_str(), source);
}

#[test]
fn round_trip_preserves_bytes_for_every_delivery_shape() {
    let source: [u8; 3] = [4, 5, 6];
    let borrowed = decode_bytes(Ok(BytesDelivery::BorrowedRegion(&source))).unwrap();
    assert_eq!(borrowed.as_slice(), &source);

    let transient = decode_bytes(Ok(BytesDelivery::TransientRegion(&source))).unwrap();
    assert_eq!(transient.as_slice(), &source);

    let owned = decode_bytes(Ok(BytesDelivery::OwnedBuffer(vec![4u8, 5, 6]))).unwrap();
    assert_eq!(owned.as_slice(), &source);
}

#[test]
fn expectation_descriptions() {
    assert_eq!(CowStrVisitor.expecting(), "a string");
    assert_eq!(CowBytesVisitor.expecting(), "bytes");
}

#[test]
fn empty_text_and_bytes_decode() {
    let t = decode_str(Ok(StrDelivery::BorrowedRegion(""))).unwrap();
    assert!(t.is_borrowed());
    assert_eq!(t.as_str(), "");

    let empty: [u8; 0] = [];
    let b = decode_bytes(Ok(BytesDelivery::BorrowedRegion(&empty))).unwrap();
    assert!(b.is_borrowed());
    assert_eq!(b.as_slice(), &[] as &[u8]);
}
