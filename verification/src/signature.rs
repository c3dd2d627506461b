use vstd::prelude::*;

verus! {

// ---------------------------------------------------------------------------
// Hex encoding, as a mathematical statement
// ---------------------------------------------------------------------------

/// The ASCII byte of the lowercase hex digit for a nibble `d < 16`.
pub open spec fn hex_digit_byte(d: u8) -> u8 {
    if d < 10 {
        (d + 48) as u8
    } else {
        (d + 87) as u8
    }
}

/// The lowercase hex encoding of a byte sequence, as ASCII bytes: two digits
/// per input byte, high nibble first.
pub open spec fn hex_bytes_of(b: Seq<u8>) -> Seq<u8> {
    Seq::new(
        b.len() * 2,
        |i: int|
            if i % 2 == 0 {
                hex_digit_byte(b[i / 2] / 16)
            } else {
                hex_digit_byte(b[i / 2] % 16)
            },
    )
}

/// Relies on `hex::encode`: lowercase hex, exactly two digits per input byte,
/// high nibble first, so the result's bytes are `hex_bytes_of` of the input.
#[verifier::external_body]
fn hex_encode_bytes(b: &[u8]) -> (r: Vec<u8>)
    ensures
        r@ == hex_bytes_of(b@),
{
    hex::encode(b).into_bytes()
}

// ---------------------------------------------------------------------------
// The HMAC digest, named
// ---------------------------------------------------------------------------

/// The HMAC-SHA256 digest of `msg` under `key`. The digest is a function of
/// the key and the message alone; it is not written out here.
pub uninterp spec fn hmac_sha256_of(key: Seq<u8>, msg: Seq<u8>) -> Seq<u8>;

/// Relies on `hmac_sha256::HMAC::mac`: the 32-byte HMAC-SHA256 message
/// authentication code of the input under the key, depending on both alone.
#[verifier::external_body]
fn hmac_digest(msg: &[u8], key: &[u8]) -> (r: Vec<u8>)
    ensures
        r@ == hmac_sha256_of(key@, msg@),
        r@.len() == 32,
{
    hmac_sha256::HMAC::mac(msg, key).to_vec()
}

// ---------------------------------------------------------------------------
// The signature header value
// ---------------------------------------------------------------------------

/// The ASCII bytes of the literal prefix `sha256=`.
pub open spec fn sig_prefix() -> Seq<u8> {
    seq![115u8, 104u8, 97u8, 50u8, 53u8, 54u8, 61u8]
}

/// The expected signature header value for `body` under `secret`: the literal
/// `sha256=` followed by the lowercase hex HMAC-SHA256 digest of the body.
pub open spec fn signature_of(secret: Seq<u8>, body: Seq<u8>) -> Seq<u8> {
    sig_prefix() + hex_bytes_of(hmac_sha256_of(secret, body))
}

/// Whether a caller-supplied signature header value is the one expected for
/// `body` under `secret`, byte for byte.
pub open spec fn signature_matches(secret: Seq<u8>, body: Seq<u8>, sig: Seq<u8>) -> bool {
    sig == signature_of(secret, body)
}

/// Compute `HMAC-SHA256(secret, body)`, hex-encode the digest, and prepend
/// the literal prefix `sha256=`.
pub fn compute_signature(body: &[u8], secret: &[u8]) -> (r: Vec<u8>)
    ensures
        r@ == signature_of(secret@, body@),
{
    let digest = hmac_digest(body, secret);
    let mut hex = hex_encode_bytes(digest.as_slice());
    let mut r: Vec<u8> = Vec::new();
    r.push(115);
    r.push(104);
    r.push(97);
    r.push(50);
    r.push(53);
    r.push(54);
    r.push(61);
    proof {
        assert(r@ =~= sig_prefix());
    }
    r.append(&mut hex);
    proof {
        assert(r@ =~= signature_of(secret@, body@));
    }
    r
}

/// Byte-for-byte comparison of two byte slices.
pub fn bytes_eq(a: &[u8], b: &[u8]) -> (r: bool)
    ensures
        r == (a@ == b@),
{
    if a.len() != b.len() {
        return false;
    }
    let mut i: usize = 0;
    while i < a.len()
        invariant
            i <= a@.len(),
            a@.len() == b@.len(),
            forall|j: int| 0 <= j < i ==> a@[j] == b@[j],
        decreases a@.len() - i,
    {
        if a[i] != b[i] {
            return false;
        }
        i += 1;
    }
    proof {
        assert(a@ =~= b@);
    }
    true
}

/// Check the caller-supplied signature header value against the value
/// computed from the raw body and the secret. The comparison is made only
/// after the full expected value has been computed.
pub fn verify_signature(body: &[u8], secret: &[u8], signature: &[u8]) -> (r: bool)
    ensures
        r == signature_matches(secret@, body@, signature@),
{
    let computed = compute_signature(body, secret);
    bytes_eq(signature, computed.as_slice())
}

// ---------------------------------------------------------------------------
// Laws
// ---------------------------------------------------------------------------

/// Hex encoding is injective: equal encodings come only from equal inputs.
pub proof fn lemma_hex_bytes_injective(a: Seq<u8>, b: Seq<u8>)
    requires
        hex_bytes_of(a) == hex_bytes_of(b),
    ensures
        a == b,
{
    assert(hex_bytes_of(a).len() == a.len() * 2);
    assert(hex_bytes_of(b).len() == b.len() * 2);
    assert(a.len() == b.len());
    assert forall|i: int| 0 <= i < a.len() implies a[i] == b[i] by {
        assert(0 <= 2 * i < hex_bytes_of(a).len());
        assert(0 <= 2 * i + 1 < hex_bytes_of(a).len());
        assert(hex_bytes_of(a)[2 * i] == hex_digit_byte(a[i] / 16));
        assert(hex_bytes_of(b)[2 * i] == hex_digit_byte(b[i] / 16));
        assert(hex_bytes_of(a)[2 * i + 1] == hex_digit_byte(a[i] % 16));
        assert(hex_bytes_of(b)[2 * i + 1] == hex_digit_byte(b[i] % 16));
        assert(hex_digit_byte(a[i] / 16) == hex_digit_byte(b[i] / 16));
        assert(hex_digit_byte(a[i] % 16) == hex_digit_byte(b[i] % 16));
        assert(a[i] / 16 == b[i] / 16);
        assert(a[i] % 16 == b[i] % 16);
    };
    assert(a =~= b);
}

/// Equal signature header values come only from equal digests.
pub proof fn lemma_signature_of_injective(secret: Seq<u8>, b1: Seq<u8>, b2: Seq<u8>)
    requires
        signature_of(secret, b1) == signature_of(secret, b2),
    ensures
        hmac_sha256_of(secret, b1) == hmac_sha256_of(secret, b2),
{
    let p = sig_prefix();
    let h1 = hex_bytes_of(hmac_sha256_of(secret, b1));
    let h2 = hex_bytes_of(hmac_sha256_of(secret, b2));
    assert(p.len() == 7);
    assert((p + h1).len() == p.len() + h1.len());
    assert((p + h2).len() == p.len() + h2.len());
    assert(h1.len() == h2.len());
    assert forall|j: int| 0 <= j < h1.len() implies h1[j] == h2[j] by {
        assert((p + h1)[7 + j] == h1[j]);
        assert((p + h2)[7 + j] == h2[j]);
    };
    assert(h1 =~= h2);
    lemma_hex_bytes_injective(hmac_sha256_of(secret, b1), hmac_sha256_of(secret, b2));
}

/// For every body and secret, the signature computed from the body verifies
/// against that same body; and the signature computed from one body verifies
/// against a second body exactly when the two bodies' digests under the
/// secret coincide.
pub proof fn lemma_signature_verification(secret: Seq<u8>, body1: Seq<u8>, body2: Seq<u8>)
    ensures
        signature_matches(secret, body1, signature_of(secret, body1)),
        signature_matches(secret, body2, signature_of(secret, body1)) <==> hmac_sha256_of(
            secret,
            body2,
        ) == hmac_sha256_of(secret, body1),
{
    if signature_matches(secret, body2, signature_of(secret, body1)) {
        lemma_signature_of_injective(secret, body2, body1);
    }
}

} // verus!
