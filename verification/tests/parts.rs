use boundary_string::{decode_text, matches_greeting, terminator_index, BoundaryFault, TERMINATOR};

#[test]
fn terminator_is_the_zero_byte() {
    assert_eq!(TERMINATOR, 0);
}

#[test]
fn terminator_index_finds_the_first_zero() {
    assert_eq!(terminator_index(b"Hello Rust\0"), Some(10));
    assert_eq!(terminator_index(b"\0"), Some(0));
    assert_eq!(terminator_index(b"ab\0cd\0"), Some(2));
    assert_eq!(terminator_index(b"\0\0\0"), Some(0));
    assert_eq!(terminator_index(b"\xff\0"), Some(1));
}

#[test]
fn terminator_index_of_unterminated_buffer_is_none() {
    assert_eq!(terminator_index(b""), None);
    assert_eq!(terminator_index(b"Hello Rust"), None);
    assert_eq!(terminator_index(b"\x01\x02\x03"), None);
}

#[test]
fn decode_text_gives_the_text_before_the_terminator() {
    assert_eq!(decode_text(b"Hello Rust\0"), Ok("Hello Rust"));
    assert_eq!(decode_text(b"\0"), Ok(""));
    assert_eq!(decode_text(b"first\0second\0"), Ok("first"));
    assert_eq!(decode_text("café\0".as_bytes()), Ok("café"));
    assert_eq!(decode_text(b"caf\xc3\xa9\0"), Ok("café"));
    assert_eq!(decode_text(b"\xf0\x9f\xa6\x80\0\xff"), Ok("\u{1F980}"));
}

#[test]
fn decode_text_borrows_from_the_buffer() {
    let buffer = b"Hello Rust\0".to_vec();
    let text = decode_text(&buffer).unwrap();
    assert_eq!(text.as_ptr(), buffer.as_ptr());
    assert_eq!(text.len(), 10);
}

#[test]
fn decode_text_names_the_fault() {
    assert_eq!(decode_text(b"Hello Rust"), Err(BoundaryFault::Unterminated));
    assert_eq!(decode_text(b""), Err(BoundaryFault::Unterminated));
    assert_eq!(decode_text(b"\x80\0"), Err(BoundaryFault::InvalidEncoding));
    assert_eq!(decode_text(b"ok\xc3\0\xa9"), Err(BoundaryFault::InvalidEncoding));
    // an unterminated buffer is that fault, whatever its bytes are
    assert_eq!(decode_text(b"\x80"), Err(BoundaryFault::Unterminated));
}

#[test]
fn matches_greeting_is_exact() {
    assert!(matches_greeting("Hello Rust"));
    assert!(!matches_greeting(""));
    assert!(!matches_greeting("hello rust"));
    assert!(!matches_greeting("Hello Rust "));
    assert!(!matches_greeting("Hello Rus"));
    assert!(!matches_greeting("Hello_Rust"));
    assert!(!matches_greeting("Hello Rust\0"));
    assert!(!matches_greeting("Hello Rüst"));
}

#[test]
fn faults_compare_and_copy() {
    let fault = BoundaryFault::InvalidEncoding;
    let copy = fault;
    assert_eq!(fault, copy);
    assert_ne!(BoundaryFault::Unterminated, BoundaryFault::InvalidEncoding);
    assert_eq!(format!("{:?}", BoundaryFault::Unterminated), "Unterminated");
}
