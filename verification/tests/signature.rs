use webhookd::signature::{
    check_signature, compute_digest, eq_ignore_ascii_case, get_signature_header, to_hex, SignatureCheck,
    SignatureHeaderError,
};

// RFC 4231, test case 2.
const KEY: &str = "Jefe";
const MESSAGE: &[u8] = b"what do ya want for nothing?";
const DIGEST: &str = "5bdcc146bf60754e6a042426089575c75a003f089d2739839dec58b964ec3843";

#[test]
fn hex_is_lower_case_two_digits_per_byte() {
    assert_eq!(to_hex(&[]), "");
    assert_eq!(to_hex(&[0x00, 0x0f, 0xa0, 0xff, 0x1a]), "000fa0ff1a");
}

#[test]
fn digest_is_hmac_sha256_in_hex() {
    assert_eq!(compute_digest(KEY, MESSAGE), DIGEST);
    assert_eq!(compute_digest("", b"").len(), 64);
    assert_eq!(
        compute_digest("", b""),
        "b613679a0814d9ec772f95d778c35fc5ff1697c493715653c6c712144292c5ad"
    );
}

#[test]
fn signature_header_needs_prefix_and_text() {
    assert_eq!(get_signature_header(None), Err(SignatureHeaderError::Missing));
    assert_eq!(get_signature_header(Some(b"sha256=abc")), Ok(&b"abc"[..]));
    assert_eq!(get_signature_header(Some(b"sha256=")), Ok(&b""[..]));
    assert_eq!(get_signature_header(Some(b"sha1=abc")), Err(SignatureHeaderError::NoPrefix));
    assert_eq!(get_signature_header(Some(b"sha25")), Err(SignatureHeaderError::NoPrefix));
    assert_eq!(get_signature_header(Some(b"SHA256=abc")), Err(SignatureHeaderError::NoPrefix));
    assert_eq!(get_signature_header(Some(b"sha256=a\x01c")), Err(SignatureHeaderError::NotText));
    assert_eq!(get_signature_header(Some(b"sha256=a\tc")), Ok(&b"a\tc"[..]));
    assert_eq!(get_signature_header(Some("sha256=é".as_bytes())), Err(SignatureHeaderError::NotText));
}

#[test]
fn signature_header_error_messages() {
    assert_eq!(SignatureHeaderError::Missing.message(), "request is not signed with a X-Hub-Signature-256 header");
    assert_eq!(
        SignatureHeaderError::NotText.message(),
        "malformed X-Hub-Signature-256 header: failed to convert header to a str"
    );
    assert_eq!(
        SignatureHeaderError::NoPrefix.message(),
        "malformed X-Hub-Signature-256 header: signature does not start with 'sha256='"
    );
}

#[test]
fn ascii_case_is_ignored() {
    assert!(eq_ignore_ascii_case(b"AbC", b"aBc"));
    assert!(!eq_ignore_ascii_case(b"abc", b"abd"));
    assert!(!eq_ignore_ascii_case(b"abc", b"ab"));
    assert!(!eq_ignore_ascii_case(b"[", b"{"));
}

#[test]
fn correctly_signed_request_passes() {
    let header = format!("sha256={}", DIGEST);
    match check_signature(KEY, MESSAGE, Some(header.as_bytes())) {
        SignatureCheck::Valid { digest } => assert_eq!(digest, DIGEST),
        other => panic!("{:?}", other),
    }
    let upper = format!("sha256={}", DIGEST.to_uppercase());
    assert!(matches!(check_signature(KEY, MESSAGE, Some(upper.as_bytes())), SignatureCheck::Valid { .. }));
}

#[test]
fn wrongly_signed_request_fails() {
    let header = format!("sha256={}", DIGEST);
    match check_signature("other key", MESSAGE, Some(header.as_bytes())) {
        SignatureCheck::Mismatch { digest } => assert_ne!(digest, DIGEST),
        other => panic!("{:?}", other),
    }
    assert!(matches!(check_signature(KEY, b"another body", Some(header.as_bytes())), SignatureCheck::Mismatch { .. }));
    assert!(matches!(check_signature(KEY, MESSAGE, None), SignatureCheck::BadHeader(SignatureHeaderError::Missing)));
    assert!(matches!(
        check_signature(KEY, MESSAGE, Some(DIGEST.as_bytes())),
        SignatureCheck::BadHeader(SignatureHeaderError::NoPrefix)
    ));
}
