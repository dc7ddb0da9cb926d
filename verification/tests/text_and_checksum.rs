use rye_self::ascii::{bytes_eq, first_token_of, hex_encode, lowercase};
use rye_self::checksum::verify_checksum;

// SHA-256 of "hello world", as every SHA-256 implementation must produce it.
const HELLO_DIGEST: &str = "b94d27b9934d3e08a52e52d7da7dabfac484efe37a5380ee9088f7ace2efcde9";

#[test]
fn hex_encode_known_bytes() {
    assert_eq!(hex_encode(&[0xde, 0xad, 0xbe, 0xef]), b"deadbeef".to_vec());
    assert_eq!(hex_encode(&[]), Vec::<u8>::new());
    assert_eq!(hex_encode(&[0x00, 0x0f, 0x10, 0xff]), b"000f10ff".to_vec());
}

#[test]
fn first_token_skips_leading_whitespace_and_stops_at_next() {
    assert_eq!(first_token_of(b"  abc def"), b"abc".to_vec());
    assert_eq!(first_token_of(b"abc"), b"abc".to_vec());
    assert_eq!(first_token_of(b"\t\n abc\r\n"), b"abc".to_vec());
    assert_eq!(first_token_of(b"   "), Vec::<u8>::new());
    assert_eq!(first_token_of(b""), Vec::<u8>::new());
}

#[test]
fn lowercase_folds_ascii_only() {
    assert_eq!(lowercase(b"DeadBEEF09"), b"deadbeef09".to_vec());
    assert_eq!(lowercase(b"{}[]"), b"{}[]".to_vec());
}

#[test]
fn bytes_eq_compares_contents() {
    assert!(bytes_eq(b"abc", b"abc"));
    assert!(!bytes_eq(b"abc", b"abd"));
    assert!(!bytes_eq(b"abc", b"abcd"));
}

#[test]
fn checksum_accepts_matching_digest() {
    assert!(verify_checksum(b"hello world", HELLO_DIGEST.as_bytes()));
}

#[test]
fn checksum_normalizes_case_and_trailing_file_name() {
    let sidecar = format!("  {}  rye-x86_64-linux.gz\n", HELLO_DIGEST.to_uppercase());
    assert!(verify_checksum(b"hello world", sidecar.as_bytes()));
}

#[test]
fn checksum_rejects_wrong_digest() {
    let sidecar = "deadbeefdeadbeefdeadbeefdeadbeefdeadbeefdeadbeefdeadbeefdeadbeef";
    assert!(!verify_checksum(b"hello world", sidecar.as_bytes()));
}

#[test]
fn checksum_computes_real_sha256() {
    // The digest must come from the payload, not from the sidecar alone:
    // the same sidecar must accept one payload and reject another.
    assert!(verify_checksum(b"hello world", HELLO_DIGEST.as_bytes()));
    assert!(!verify_checksum(b"hello worlds", HELLO_DIGEST.as_bytes()));
}
