use mcserverd::digest::sha1_hex;
use mcserverd::hex::{digit_char, encode_hex, hex_of_u64, is_lower_hex_text};

#[test]
fn sha1_of_the_empty_input() {
    assert_eq!(sha1_hex(b""), "da39a3ee5e6b4b0d3255bfef95601890afd80709");
}

#[test]
fn sha1_of_abc() {
    assert_eq!(sha1_hex(b"abc"), "a9993e364706816aba3e25717850c26c9cd0d89d");
}

#[test]
fn sha1_of_a_sentence() {
    assert_eq!(
        sha1_hex(b"The quick brown fox jumps over the lazy dog"),
        "2fd4e1c67a2d28fced849ee1bb76e7391b93eb12"
    );
}

#[test]
fn sha1_hex_is_forty_lowercase_digits() {
    let text = sha1_hex(&[0u8, 255, 16, 1]);
    assert_eq!(text.len(), 40);
    assert!(text.chars().all(|c| c.is_ascii_digit() || ('a'..='f').contains(&c)));
}

#[test]
fn sha1_hex_is_not_its_input() {
    let data = b"a9993e364706816aba3e25717850c26c9cd0d89d";
    assert_ne!(sha1_hex(data).as_bytes(), data);
}

#[test]
fn encode_hex_writes_two_digits_per_byte() {
    assert_eq!(encode_hex(&[]), "");
    assert_eq!(encode_hex(&[0x00]), "00");
    assert_eq!(encode_hex(&[0x0f, 0xf0, 0xab, 0x09]), "0ff0ab09");
    assert_eq!(encode_hex(&[0xde, 0xad, 0xbe, 0xef]), "deadbeef");
}

#[test]
fn hex_of_u64_has_no_leading_zeros() {
    assert_eq!(hex_of_u64(0), "0");
    assert_eq!(hex_of_u64(9), "9");
    assert_eq!(hex_of_u64(10), "a");
    assert_eq!(hex_of_u64(16), "10");
    assert_eq!(hex_of_u64(255), "ff");
    assert_eq!(hex_of_u64(0x1234_abcd), "1234abcd");
    assert_eq!(hex_of_u64(u64::MAX), "ffffffffffffffff");
}

#[test]
fn hex_of_u64_agrees_with_formatting() {
    for n in [0u64, 1, 15, 16, 17, 4095, 4096, 1 << 32, u64::MAX - 1] {
        assert_eq!(hex_of_u64(n), format!("{:x}", n));
    }
}

#[test]
fn digit_char_covers_all_sixteen() {
    let digits: String = (0u8..16).map(digit_char).collect();
    assert_eq!(digits, "0123456789abcdef");
}

#[test]
fn lower_hex_text_is_recognised() {
    assert!(is_lower_hex_text(""));
    assert!(is_lower_hex_text("0123456789abcdef"));
    assert!(!is_lower_hex_text("0123456789ABCDEF"));
    assert!(!is_lower_hex_text("abcdefg"));
    assert!(!is_lower_hex_text("12 34"));
    assert!(!is_lower_hex_text("\u{ff10}"));
}
