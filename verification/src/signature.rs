use hmac::Mac;
use vstd::prelude::*;

verus! {

broadcast use vstd::string::group_string_axioms;

/// What HMAC-SHA256 with this key gives for this message.
pub uninterp spec fn spec_hmac_sha256(key: Seq<u8>, message: Seq<u8>) -> Seq<u8>;

/// Calls `Mac::update` and `Mac::finalize` on `hmac::Hmac<sha2::Sha256>`
/// made by `Mac::new_from_slice(key)`. Claimed: the result is
/// `spec_hmac_sha256(key, message)`, the same for the same key and message,
/// and is a SHA-256 output, 32 bytes long. `new_from_slice` of this type
/// accepts a key of any length (it hashes a long key down and pads a short
/// one), so its `unwrap` does not panic.
#[verifier::external_body]
fn hmac_sha256(key: &[u8], message: &[u8]) -> (mac: Vec<u8>)
    ensures
        mac@ == spec_hmac_sha256(key@, message@),
        mac@.len() == 32,
{
    let mut mac = hmac::Hmac::<sha2::Sha256>::new_from_slice(key).unwrap();
    mac.update(message);
    mac.finalize().into_bytes().to_vec()
}

/// Appends a character to a string (`String::push`).
pub assume_specification[ String::push ](string: &mut String, ch: char)
    ensures
        final(string)@ == old(string)@.push(ch),
;

/// The lower-case hexadecimal digit for `n < 16`.
pub open spec fn spec_hex_digit(n: int) -> char {
    if n < 10 {
        (48 + n) as char
    } else {
        (87 + n) as char
    }
}

/// Lower-case hexadecimal, two digits per byte, the high half first.
pub open spec fn spec_hex(data: Seq<u8>) -> Seq<char>
    decreases data.len(),
{
    if data.len() == 0 {
        Seq::empty()
    } else {
        spec_hex(data.drop_last()).push(spec_hex_digit(data.last() as int / 16)).push(
            spec_hex_digit(data.last() as int % 16),
        )
    }
}

/// Hexadecimal text is twice as long as the bytes, and made of the
/// characters `0`-`9` and `a`-`f` alone.
pub proof fn lemma_hex_shape(data: Seq<u8>)
    ensures
        spec_hex(data).len() == 2 * data.len(),
        forall|i: int|
            0 <= i < spec_hex(data).len() ==> {
                let c = #[trigger] spec_hex(data)[i];
                ('0' <= c <= '9') || ('a' <= c <= 'f')
            },
    decreases data.len(),
{
    if data.len() > 0 {
        lemma_hex_shape(data.drop_last());
    }
}

/// The value of a lower-case hexadecimal digit; -1 for any other
/// character.
pub open spec fn hex_digit_value(c: char) -> int {
    if '0' <= c <= '9' {
        c as int - 48
    } else if 'a' <= c <= 'f' {
        c as int - 87
    } else {
        -1
    }
}

/// Hexadecimal text is right: byte `i` becomes the two lower-case digits at
/// `2i` and `2i + 1`, the high half first, so that they read back as the
/// byte.
pub proof fn lemma_hex_is_right(data: Seq<u8>)
    ensures
        spec_hex(data).len() == 2 * data.len(),
        forall|i: int|
            0 <= i < data.len() ==> {
                let hi = hex_digit_value(#[trigger] spec_hex(data)[2 * i]);
                let lo = hex_digit_value(spec_hex(data)[2 * i + 1]);
                0 <= hi < 16 && 0 <= lo < 16 && hi * 16 + lo == data[i]
            },
    decreases data.len(),
{
    lemma_hex_shape(data);
    if data.len() > 0 {
        let d = data.drop_last();
        lemma_hex_is_right(d);
        lemma_hex_shape(d);
        assert forall|i: int| 0 <= i < data.len() implies {
            let hi = hex_digit_value(#[trigger] spec_hex(data)[2 * i]);
            let lo = hex_digit_value(spec_hex(data)[2 * i + 1]);
            0 <= hi < 16 && 0 <= lo < 16 && hi * 16 + lo == data[i]
        } by {
            if i < d.len() {
                assert(spec_hex(data)[2 * i] == spec_hex(d)[2 * i]);
                assert(spec_hex(data)[2 * i + 1] == spec_hex(d)[2 * i + 1]);
                assert(d[i] == data[i]);
            } else {
                let b = data.last() as int;
                assert(i == data.len() - 1);
                assert(b / 16 * 16 + b % 16 == b);
            }
        }
    }
}

fn hex_digit(n: u8) -> (c: char)
    requires
        n < 16,
    ensures
        c == spec_hex_digit(n as int),
{
    if n < 10 {
        (48 + n) as char
    } else {
        (87 + n) as char
    }
}

/// Lower-case hexadecimal of `data`, two digits per byte.
pub fn to_hex(data: &[u8]) -> (r: String)
    ensures
        r@ == spec_hex(data@),
{
    let mut output = String::new();
    let mut i: usize = 0;
    while i < data.len()
        invariant
            i <= data@.len(),
            output@ == spec_hex(data@.subrange(0, i as int)),
        decreases data@.len() - i,
    {
        let byte = data[i];
        assert(byte >> 4 == byte / 16 && byte & 0x0f == byte % 16) by (bit_vector);
        output.push(hex_digit(byte >> 4));
        output.push(hex_digit(byte & 0x0f));
        assert(data@.subrange(0, i + 1).drop_last() =~= data@.subrange(0, i as int));
        i = i + 1;
    }
    assert(data@.subrange(0, data@.len() as int) =~= data@);
    output
}

/// The hexadecimal HMAC-SHA256 of `data` under the key `secret`.
pub open spec fn spec_digest(secret: Seq<char>, data: Seq<u8>) -> Seq<char> {
    spec_hex(spec_hmac_sha256(vstd::utf8::encode_utf8(secret), data))
}

/// The lower-case hexadecimal HMAC-SHA256 of `data` under the key `secret`
/// (the key is the secret's UTF-8 bytes).
pub fn compute_digest(secret: &str, data: &[u8]) -> (r: String)
    ensures
        r@ == spec_digest(secret@, data@),
{
    let mac = hmac_sha256(secret.as_bytes(), data);
    to_hex(mac.as_slice())
}

/// Whether a header byte may stand in header text: a visible ASCII
/// character, a space or a tab.
pub open spec fn visible_ascii(b: u8) -> bool {
    (32 <= b && b < 127) || b == 9
}

/// The bytes of `sha256=`.
pub open spec fn signature_prefix() -> Seq<u8> {
    seq![115u8, 104u8, 97u8, 50u8, 53u8, 54u8, 61u8]
}

/// Why an `X-Hub-Signature-256` header is unusable.
#[derive(Debug, Clone, Copy, PartialEq, Eq, Structural)]
pub enum SignatureHeaderError {
    /// The request has no such header.
    Missing,
    /// The header holds a byte that is not text.
    NotText,
    /// The header does not start with `sha256=`.
    NoPrefix,
}

impl SignatureHeaderError {
    /// What to log about the header.
    pub fn message(&self) -> (r: &'static str)
        ensures
            r@ == (match self {
                SignatureHeaderError::Missing => "request is not signed with a X-Hub-Signature-256 header"@,
                SignatureHeaderError::NotText => "malformed X-Hub-Signature-256 header: failed to convert header to a str"@,
                SignatureHeaderError::NoPrefix => "malformed X-Hub-Signature-256 header: signature does not start with 'sha256='"@,
            }),
    {
        match self {
            SignatureHeaderError::Missing => "request is not signed with a X-Hub-Signature-256 header",
            SignatureHeaderError::NotText => "malformed X-Hub-Signature-256 header: failed to convert header to a str",
            SignatureHeaderError::NoPrefix => "malformed X-Hub-Signature-256 header: signature does not start with 'sha256='",
        }
    }
}

/// The signature in an `X-Hub-Signature-256` header's bytes (`None`: the
/// request has no such header): what follows `sha256=`, in a header of text.
pub open spec fn spec_signature_header(header: Option<Seq<u8>>) -> Result<Seq<u8>, SignatureHeaderError> {
    match header {
        None => Err(SignatureHeaderError::Missing),
        Some(h) => if !(forall|i: int| 0 <= i < h.len() ==> visible_ascii(#[trigger] h[i])) {
            Err(SignatureHeaderError::NotText)
        } else if h.len() < 7 || h.subrange(0, 7) != signature_prefix() {
            Err(SignatureHeaderError::NoPrefix)
        } else {
            Ok(h.subrange(7, h.len() as int))
        },
    }
}

/// The prefix is the text `sha256=`.
pub proof fn lemma_signature_prefix_text()
    ensures
        signature_prefix() == ascii_bytes("sha256="@),
{
    reveal_strlit("sha256=");
    assert(signature_prefix() =~= ascii_bytes("sha256="@));
}

/// A usable header is the prefix followed by the signature, all text: the
/// signature is what remains of the header once `sha256=` is cut off.
pub proof fn lemma_signature_header_splits(header: Seq<u8>)
    ensures
        spec_signature_header(Some(header)) matches Ok(sig) ==> header == signature_prefix() + sig && forall|i: int|
            0 <= i < header.len() ==> visible_ascii(#[trigger] header[i]),
{
    if spec_signature_header(Some(header)) matches Ok(sig) {
        assert(header =~= header.subrange(0, 7) + header.subrange(7, header.len() as int));
    }
}

/// The view of an optional header.
pub open spec fn header_view(header: Option<&[u8]>) -> Option<Seq<u8>> {
    match header {
        None => None,
        Some(h) => Some(h@),
    }
}

/// The signature that an `X-Hub-Signature-256` header carries: the text
/// after `sha256=`.
pub fn get_signature_header(header: Option<&[u8]>) -> (r: Result<&[u8], SignatureHeaderError>)
    ensures
        match r {
            Ok(sig) => spec_signature_header(header_view(header)) == Ok::<Seq<u8>, SignatureHeaderError>(sig@),
            Err(e) => spec_signature_header(header_view(header)) == Err::<Seq<u8>, SignatureHeaderError>(e),
        },
{
    let h = match header {
        None => return Err(SignatureHeaderError::Missing),
        Some(h) => h,
    };
    let mut i: usize = 0;
    while i < h.len()
        invariant
            header_view(header) == Some(h@),
            i <= h@.len(),
            forall|j: int| 0 <= j < i ==> visible_ascii(#[trigger] h@[j]),
        decreases h@.len() - i,
    {
        let b = h[i];
        if !((32 <= b && b < 127) || b == 9) {
            assert(!visible_ascii(h@[i as int]));
            return Err(SignatureHeaderError::NotText);
        }
        i = i + 1;
    }
    let prefix: [u8; 7] = [115, 104, 97, 50, 53, 54, 61];
    assert(prefix@ == signature_prefix());
    if h.len() < 7 {
        return Err(SignatureHeaderError::NoPrefix);
    }
    let mut k: usize = 0;
    while k < 7
        invariant
            header_view(header) == Some(h@),
            k <= 7,
            h@.len() >= 7,
            prefix@ == signature_prefix(),
            forall|j: int| 0 <= j < h@.len() ==> visible_ascii(#[trigger] h@[j]),
            forall|j: int| 0 <= j < k ==> h@[j] == prefix@[j],
        decreases 7 - k,
    {
        if h[k] != prefix[k] {
            assert(h@.subrange(0, 7)[k as int] != signature_prefix()[k as int]);
            return Err(SignatureHeaderError::NoPrefix);
        }
        k = k + 1;
    }
    assert(h@.subrange(0, 7) =~= signature_prefix());
    let (_, sig) = h.split_at(7);
    Ok(sig)
}

/// ASCII letters in lower case; other bytes unchanged.
pub open spec fn ascii_lower(b: u8) -> int {
    if 65 <= b && b <= 90 {
        b + 32
    } else {
        b as int
    }
}

/// Whether two byte strings are equal when ASCII letters are compared
/// without regard to case (what `str::eq_ignore_ascii_case` decides).
pub open spec fn spec_eq_ignore_ascii_case(a: Seq<u8>, b: Seq<u8>) -> bool {
    &&& a.len() == b.len()
    &&& forall|i: int| 0 <= i < a.len() ==> ascii_lower(#[trigger] a[i]) == ascii_lower(b[i])
}

/// Whether two byte strings are equal when ASCII letters are compared
/// without regard to case.
pub fn eq_ignore_ascii_case(a: &[u8], b: &[u8]) -> (r: bool)
    ensures
        r == spec_eq_ignore_ascii_case(a@, b@),
{
    if a.len() != b.len() {
        return false;
    }
    let mut i: usize = 0;
    while i < a.len()
        invariant
            i <= a@.len(),
            a@.len() == b@.len(),
            forall|j: int| 0 <= j < i ==> ascii_lower(#[trigger] a@[j]) == ascii_lower(b@[j]),
        decreases a@.len() - i,
    {
        let x = a[i];
        let y = b[i];
        let lx: u8 = if 65 <= x && x <= 90 { x + 32 } else { x };
        let ly: u8 = if 65 <= y && y <= 90 { y + 32 } else { y };
        if lx != ly {
            return false;
        }
        i = i + 1;
    }
    true
}

/// The bytes of ASCII text.
pub open spec fn ascii_bytes(text: Seq<char>) -> Seq<u8> {
    Seq::new(text.len(), |i: int| text[i] as u8)
}

/// A correctly signed request passes: when the `X-Hub-Signature-256` header
/// is `sha256=` followed by the hexadecimal HMAC-SHA256 of the body under the
/// secret, the check gives `Ok` with that digest.
pub proof fn lemma_signed_request_passes(secret: Seq<char>, body: Seq<u8>)
    ensures
        spec_check_signature(
            secret,
            body,
            Some(signature_prefix() + ascii_bytes(spec_digest(secret, body))),
        ) == Ok::<Seq<char>, Option<SignatureHeaderError>>(spec_digest(secret, body)),
{
    let digest = spec_digest(secret, body);
    let sig = ascii_bytes(digest);
    let header = signature_prefix() + sig;
    lemma_hex_shape(spec_hmac_sha256(vstd::utf8::encode_utf8(secret), body));
    assert forall|i: int| 0 <= i < header.len() implies visible_ascii(#[trigger] header[i]) by {
        if i >= 7 {
            let c = digest[i - 7];
            assert(('0' <= c <= '9') || ('a' <= c <= 'f'));
        }
    }
    assert(header.subrange(0, 7) =~= signature_prefix());
    assert(header.subrange(7, header.len() as int) =~= sig);
}

/// ASCII letters in upper case; other bytes unchanged.
pub open spec fn ascii_upper(b: u8) -> u8 {
    if 97 <= b && b <= 122 {
        (b - 32) as u8
    } else {
        b
    }
}

/// Letter case does not matter: a header carrying the digest in upper-case
/// hexadecimal passes as well.
pub proof fn lemma_upper_case_signature_passes(secret: Seq<char>, body: Seq<u8>)
    ensures
        ({
            let digest = spec_digest(secret, body);
            let upper = ascii_bytes(digest).map_values(|b: u8| ascii_upper(b));
            spec_check_signature(secret, body, Some(signature_prefix() + upper))
                == Ok::<Seq<char>, Option<SignatureHeaderError>>(digest)
        }),
{
    let digest = spec_digest(secret, body);
    let lower = ascii_bytes(digest);
    let upper = lower.map_values(|b: u8| ascii_upper(b));
    let header = signature_prefix() + upper;
    lemma_hex_shape(spec_hmac_sha256(vstd::utf8::encode_utf8(secret), body));
    assert forall|i: int| 0 <= i < header.len() implies visible_ascii(#[trigger] header[i]) by {
        if i >= 7 {
            let c = digest[i - 7];
            assert(('0' <= c <= '9') || ('a' <= c <= 'f'));
        }
    }
    assert(header.subrange(0, 7) =~= signature_prefix());
    assert(header.subrange(7, header.len() as int) =~= upper);
    assert forall|i: int| 0 <= i < lower.len() implies ascii_lower(#[trigger] lower[i]) == ascii_lower(upper[i]) by {
        let c = digest[i];
        assert(('0' <= c <= '9') || ('a' <= c <= 'f'));
    }
}

/// A signature of another length than the digest never passes.
pub proof fn lemma_wrong_length_signature_fails(secret: Seq<char>, body: Seq<u8>, signature: Seq<u8>)
    requires
        forall|i: int| 0 <= i < signature.len() ==> visible_ascii(#[trigger] signature[i]),
        signature.len() != spec_digest(secret, body).len(),
    ensures
        spec_check_signature(secret, body, Some(signature_prefix() + signature))
            == Err::<Seq<char>, Option<SignatureHeaderError>>(None),
{
    let header = signature_prefix() + signature;
    assert forall|i: int| 0 <= i < header.len() implies visible_ascii(#[trigger] header[i]) by {
        if i >= 7 {
            assert(header[i] == signature[i - 7]);
        }
    }
    assert(header.subrange(0, 7) =~= signature_prefix());
    assert(header.subrange(7, header.len() as int) =~= signature);
}

/// The outcome of checking a request's `X-Hub-Signature-256` header.
#[derive(Debug)]
pub enum SignatureCheck {
    /// The signature is the digest of the body.
    Valid { digest: String },
    /// The header is missing or unusable.
    BadHeader(SignatureHeaderError),
    /// The header's signature is not the digest of the body.
    Mismatch { digest: String },
}

/// Whether a request with this body and `X-Hub-Signature-256` header is
/// signed with the key `secret`: `Ok` with the digest when the header holds
/// `sha256=` and the hexadecimal HMAC-SHA256 of the body, letters in either
/// case.
pub open spec fn spec_check_signature(secret: Seq<char>, body: Seq<u8>, header: Option<Seq<u8>>) -> Result<Seq<char>, Option<SignatureHeaderError>> {
    let digest = spec_digest(secret, body);
    match spec_signature_header(header) {
        Err(e) => Err(Some(e)),
        Ok(sig) => if spec_eq_ignore_ascii_case(ascii_bytes(digest), sig) {
            Ok(digest)
        } else {
            Err(None)
        },
    }
}

/// Checks a request's `X-Hub-Signature-256` header (`None`: the request has
/// none) against the HMAC-SHA256 of its body under `secret`.
pub fn check_signature(secret: &str, body: &[u8], header: Option<&[u8]>) -> (r: SignatureCheck)
    ensures
        match r {
            SignatureCheck::Valid { digest } => spec_check_signature(secret@, body@, header_view(header))
                == Ok::<Seq<char>, Option<SignatureHeaderError>>(digest@),
            SignatureCheck::BadHeader(e) => spec_check_signature(secret@, body@, header_view(header))
                == Err::<Seq<char>, Option<SignatureHeaderError>>(Some(e)),
            SignatureCheck::Mismatch { digest } => spec_check_signature(secret@, body@, header_view(header))
                == Err::<Seq<char>, Option<SignatureHeaderError>>(None) && digest@ == spec_digest(secret@, body@),
        },
{
    let signature = match get_signature_header(header) {
        Ok(s) => s,
        Err(e) => return SignatureCheck::BadHeader(e),
    };
    let digest = compute_digest(secret, body);
    proof {
        lemma_hex_shape(spec_hmac_sha256(vstd::utf8::encode_utf8(secret@), body@));
        assert(vstd::utf8::is_ascii_chars(digest@));
    }
    let digest_text = digest.as_str();
    assert(vstd::string::is_ascii(digest_text));
    let digest_bytes = digest_text.as_bytes();
    assert(digest_bytes@ =~= ascii_bytes(digest@));
    if eq_ignore_ascii_case(digest_bytes, signature) {
        SignatureCheck::Valid { digest }
    } else {
        SignatureCheck::Mismatch { digest }
    }
}

} // verus!
