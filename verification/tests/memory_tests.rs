use sctrace::memory::{mem_append, mem_finalize};

fn word(bytes: [u8; 8]) -> i64 {
    i64::from_le_bytes(bytes)
}

#[test]
fn full_word_appends_all_bytes() {
    let mut acc: Vec<u8> = Vec::new();
    let stopped = mem_append(&mut acc, word(*b"ABCDEFGH"));
    assert!(!stopped);
    assert_eq!(acc, b"ABCDEFGH".to_vec());
}

#[test]
fn zero_byte_keeps_only_the_prefix() {
    // A zero at offset 3 keeps exactly the first 3 bytes and stops the
    // read: no subsequent word is fetched.
    let mut acc: Vec<u8> = Vec::new();
    let stopped = mem_append(&mut acc, word([b'h', b'i', b'!', 0, 9, 9, 9, 9]));
    assert!(stopped);
    assert_eq!(acc, b"hi!".to_vec());
}

#[test]
fn leading_zero_keeps_nothing() {
    let mut acc: Vec<u8> = Vec::new();
    let stopped = mem_append(&mut acc, word([0, b'x', b'x', b'x', b'x', b'x', b'x', b'x']));
    assert!(stopped);
    assert!(acc.is_empty());
}

#[test]
fn zero_at_last_offset_keeps_seven() {
    let mut acc: Vec<u8> = Vec::new();
    let stopped = mem_append(&mut acc, word([1, 2, 3, 4, 5, 6, 7, 0]));
    assert!(stopped);
    assert_eq!(acc, vec![1, 2, 3, 4, 5, 6, 7]);
}

#[test]
fn unreadable_pointer_renders_empty_quotes() {
    let s = mem_finalize(&Vec::new());
    assert_eq!(s, "\"\"");
}

#[test]
fn short_string_renders_quoted() {
    let s = mem_finalize(&b"Hello, world".to_vec());
    assert_eq!(s, "\"Hello, world\"");
}

#[test]
fn exactly_24_bytes_has_no_marker() {
    let s = mem_finalize(&vec![b'a'; 24]);
    assert_eq!(s, format!("\"{}\"", "a".repeat(24)));
}

#[test]
fn long_string_clipped_to_24_with_marker() {
    // 30 bytes before the terminator: exactly 24 content characters,
    // then the three-dot marker, inside the quotes.
    let s = mem_finalize(&vec![b'a'; 30]);
    assert_eq!(s, format!("\"{}...\"", "a".repeat(24)));
    assert_eq!(s.len(), 29);
}

#[test]
fn newline_escaped_in_output() {
    let s = mem_finalize(&b"a\nb".to_vec());
    assert_eq!(s, "\"a\\nb\"");
}

#[test]
fn newline_escaped_after_clipping() {
    // The clip to 24 happens first; a newline kept by it is still
    // escaped, so the content may exceed 24 characters.
    let mut bytes = vec![b'\n'; 1];
    bytes.extend(vec![b'x'; 29]);
    let s = mem_finalize(&bytes);
    assert_eq!(s, format!("\"\\n{}...\"", "x".repeat(23)));
}

#[test]
fn accumulation_across_words_then_zero() {
    let mut acc: Vec<u8> = Vec::new();
    assert!(!mem_append(&mut acc, word(*b"ABCDEFGH")));
    assert!(mem_append(&mut acc, word([b'I', b'J', 0, 7, 7, 7, 7, 7])));
    assert_eq!(acc, b"ABCDEFGHIJ".to_vec());
    assert_eq!(mem_finalize(&acc), "\"ABCDEFGHIJ\"");
}
