//! Authentication of a delivery: a keyed digest of the payload, written as
//! `sha1=<lowercase hex>`, compared with the signature the sender supplied.

use vstd::prelude::*;
use vstd::utf8::encode_utf8_decode_utf8;
use vstd::string::StringExecFns;
use hmac::Mac;

verus! {

/// Why a signature could not be checked at all.
#[derive(Debug, Clone, Copy, PartialEq, Eq, Structural)]
pub enum VerificationError {
    /// The secret could not initialise the keyed digest.
    InvalidKey,
}

/// The lowercase hexadecimal digit for a value below sixteen.
pub open spec fn hex_digit(nibble: int) -> char {
    if nibble == 0 {
        '0'
    } else if nibble == 1 {
        '1'
    } else if nibble == 2 {
        '2'
    } else if nibble == 3 {
        '3'
    } else if nibble == 4 {
        '4'
    } else if nibble == 5 {
        '5'
    } else if nibble == 6 {
        '6'
    } else if nibble == 7 {
        '7'
    } else if nibble == 8 {
        '8'
    } else if nibble == 9 {
        '9'
    } else if nibble == 10 {
        'a'
    } else if nibble == 11 {
        'b'
    } else if nibble == 12 {
        'c'
    } else if nibble == 13 {
        'd'
    } else if nibble == 14 {
        'e'
    } else {
        'f'
    }
}

/// Lowercase hexadecimal text of `bytes`: two digits per byte, high half first.
pub open spec fn hex_text(bytes: Seq<u8>) -> Seq<char> {
    Seq::new(
        2 * bytes.len(),
        |i: int|
            if i % 2 == 0 {
                hex_digit(bytes[i / 2] as int / 16)
            } else {
                hex_digit(bytes[i / 2] as int % 16)
            },
    )
}

/// Length in bytes of an HMAC-SHA1 digest.
pub const DIGEST_LENGTH: usize = 20;

/// Length in characters of a well-formed signature: `sha1=` and two
/// hexadecimal digits for each byte of the digest.
pub const SIGNATURE_LENGTH: usize = 45;

/// The signature text that vouches for a payload whose keyed digest is `digest`.
pub open spec fn signature_text(digest: Seq<u8>) -> Seq<char> {
    "sha1="@ + hex_text(digest)
}

/// The HMAC-SHA1 authentication code of `message` under `key`.
pub uninterp spec fn hmac_sha1(key: Seq<u8>, message: Seq<u8>) -> Seq<u8>;

/// Whether `signature` is the one that `secret` yields for `payload`.
pub open spec fn accepts(secret: Seq<u8>, payload: Seq<u8>, signature: Seq<char>) -> bool {
    signature == signature_text(hmac_sha1(secret, payload))
}

/// Distinct values below sixteen have distinct hexadecimal digits.
pub proof fn lemma_hex_digit_injective(a: int, b: int)
    requires
        0 <= a < 16,
        0 <= b < 16,
    ensures
        hex_digit(a) == hex_digit(b) <==> a == b,
{
}

/// Hexadecimal text determines the bytes it was written from.
pub proof fn lemma_hex_text_injective(a: Seq<u8>, b: Seq<u8>)
    ensures
        hex_text(a) == hex_text(b) <==> a == b,
{
    if hex_text(a) == hex_text(b) {
        assert(hex_text(a).len() == 2 * a.len());
        assert(hex_text(b).len() == 2 * b.len());
        assert forall|k: int| 0 <= k < a.len() implies a[k] == b[k] by {
            assert(hex_text(a)[2 * k] == hex_text(b)[2 * k]);
            assert(hex_text(a)[2 * k + 1] == hex_text(b)[2 * k + 1]);
            lemma_hex_digit_injective(a[k] as int / 16, b[k] as int / 16);
            lemma_hex_digit_injective(a[k] as int % 16, b[k] as int % 16);
        }
        assert(a =~= b);
    }
}

/// Two digests share a signature text only when they are the same digest.
pub proof fn lemma_signature_text_injective(a: Seq<u8>, b: Seq<u8>)
    ensures
        signature_text(a) == signature_text(b) <==> a == b,
{
    if signature_text(a) == signature_text(b) {
        let prefix = "sha1="@;
        assert(hex_text(a) =~= signature_text(a).subrange(
            prefix.len() as int,
            signature_text(a).len() as int,
        ));
        assert(hex_text(b) =~= signature_text(b).subrange(
            prefix.len() as int,
            signature_text(b).len() as int,
        ));
        lemma_hex_text_injective(a, b);
    }
}

/// The signature text of a digest is five characters longer than twice the
/// digest.
pub proof fn lemma_signature_text_len(digest: Seq<u8>)
    ensures
        signature_text(digest).len() == 5 + 2 * digest.len(),
{
    reveal_strlit("sha1=");
}

/// Round trip: the signature written for a payload under a secret is
/// accepted for that payload under that secret.
pub proof fn lemma_own_signature_accepted(secret: Seq<u8>, payload: Seq<u8>)
    ensures
        accepts(secret, payload, signature_text(hmac_sha1(secret, payload))),
{
}

/// A signature written for one payload is accepted for another exactly when
/// the two payloads have the same keyed digest.
pub proof fn lemma_signature_bound_to_digest(secret: Seq<u8>, payload: Seq<u8>, other: Seq<u8>)
    ensures
        accepts(secret, other, signature_text(hmac_sha1(secret, payload))) <==> hmac_sha1(
            secret,
            other,
        ) == hmac_sha1(secret, payload),
{
    lemma_signature_text_injective(hmac_sha1(secret, payload), hmac_sha1(secret, other));
}

/// Changing any one character of the signature written for a payload makes
/// it rejected for that payload.
pub proof fn lemma_altered_signature_rejected(
    secret: Seq<u8>,
    payload: Seq<u8>,
    at: int,
    replacement: char,
)
    ensures
        ({
            let genuine = signature_text(hmac_sha1(secret, payload));
            0 <= at < genuine.len() && replacement != genuine[at] ==> !accepts(
                secret,
                payload,
                genuine.update(at, replacement),
            )
        }),
{
    let genuine = signature_text(hmac_sha1(secret, payload));
    if 0 <= at < genuine.len() && replacement != genuine[at] {
        assert(genuine.update(at, replacement)[at] != genuine[at]);
    }
}

/// `hmac::digest::InvalidLength`, the error of `new_from_slice`; carried
/// through as an opaque value.
#[verifier::external_type_specification]
#[verifier::external_body]
pub struct ExInvalidLength(hmac::digest::InvalidLength);

/// `hmac::Hmac::<sha1::Sha1>`: `new_from_slice`, one `update` with the whole
/// message, then `finalize().into_bytes()`. Trusted: the keyed digest is a
/// function of key and message alone and is [`DIGEST_LENGTH`] bytes long,
/// and this construction takes a key of any length, so the call never
/// reports an invalid one.
#[verifier::external_body]
fn hmac_sha1_digest(key: &[u8], message: &[u8]) -> (outcome: Result<
    Vec<u8>,
    hmac::digest::InvalidLength,
>)
    ensures
        outcome is Ok,
        outcome->Ok_0@ == hmac_sha1(key@, message@),
        outcome->Ok_0@.len() == DIGEST_LENGTH,
{
    let mut mac = hmac::Hmac::<sha1::Sha1>::new_from_slice(key)?;
    mac.update(message);
    Ok(mac.finalize().into_bytes().to_vec())
}

fn hex_digit_text(nibble: u8) -> (text: &'static str)
    requires
        nibble < 16,
    ensures
        text@ == seq![hex_digit(nibble as int)],
{
    proof {
        reveal_strlit("0");
        reveal_strlit("1");
        reveal_strlit("2");
        reveal_strlit("3");
        reveal_strlit("4");
        reveal_strlit("5");
        reveal_strlit("6");
        reveal_strlit("7");
        reveal_strlit("8");
        reveal_strlit("9");
        reveal_strlit("a");
        reveal_strlit("b");
        reveal_strlit("c");
        reveal_strlit("d");
        reveal_strlit("e");
        reveal_strlit("f");
    }
    let text = if nibble == 0 {
        "0"
    } else if nibble == 1 {
        "1"
    } else if nibble == 2 {
        "2"
    } else if nibble == 3 {
        "3"
    } else if nibble == 4 {
        "4"
    } else if nibble == 5 {
        "5"
    } else if nibble == 6 {
        "6"
    } else if nibble == 7 {
        "7"
    } else if nibble == 8 {
        "8"
    } else if nibble == 9 {
        "9"
    } else if nibble == 10 {
        "a"
    } else if nibble == 11 {
        "b"
    } else if nibble == 12 {
        "c"
    } else if nibble == 13 {
        "d"
    } else if nibble == 14 {
        "e"
    } else {
        "f"
    };
    assert(text@ =~= seq![hex_digit(nibble as int)]);
    text
}

/// Writes `bytes` as lowercase hexadecimal text.
pub fn hex_encode(bytes: &[u8]) -> (text: String)
    ensures
        text@ == hex_text(bytes@),
{
    let mut text = String::new();
    let mut i: usize = 0;
    assert(text@ =~= hex_text(bytes@.take(0)));
    while i < bytes.len()
        invariant
            i <= bytes.len(),
            text@ == hex_text(bytes@.take(i as int)),
        decreases bytes.len() - i,
    {
        let byte: u8 = bytes[i];
        text.append(hex_digit_text(byte / 16));
        text.append(hex_digit_text(byte % 16));
        assert(text@ =~= hex_text(bytes@.take(i + 1))) by {
            let before = hex_text(bytes@.take(i as int));
            let after = hex_text(bytes@.take(i + 1));
            assert(after.len() == before.len() + 2);
            assert forall|k: int| 0 <= k < before.len() implies after[k] == before[k] by {
                assert(bytes@.take(i + 1)[k / 2] == bytes@.take(i as int)[k / 2]);
            }
            assert(bytes@.take(i + 1)[i as int] == byte);
        }
        i += 1;
    }
    assert(bytes@.take(i as int) =~= bytes@);
    text
}

/// Compares two byte strings without stopping at the first difference: the
/// work done depends on the lengths alone, never on where the contents differ.
pub fn constant_time_eq(left: &[u8], right: &[u8]) -> (same: bool)
    ensures
        same == (left@ == right@),
{
    if left.len() != right.len() {
        return false;
    }
    let mut difference: u8 = 0;
    let mut i: usize = 0;
    while i < left.len()
        invariant
            left.len() == right.len(),
            i <= left.len(),
            difference == 0 <==> (forall|j: int| 0 <= j < i ==> left[j] == right[j]),
        decreases left.len() - i,
    {
        proof {
            let d = difference;
            let l = left[i as int];
            let r = right[i as int];
            assert((d | (l ^ r)) == 0 <==> (d == 0 && l == r)) by (bit_vector);
        }
        difference = difference | (left[i] ^ right[i]);
        i += 1;
    }
    assert(difference == 0 ==> left@ =~= right@);
    difference == 0
}

/// Whether two texts hold the same characters, compared in constant time over
/// their encodings.
pub fn same_text(left: &str, right: &str) -> (same: bool)
    ensures
        same == (left@ == right@),
{
    proof {
        encode_utf8_decode_utf8(left@);
        encode_utf8_decode_utf8(right@);
    }
    constant_time_eq(left.as_bytes(), right.as_bytes())
}

/// Whether `signature` is exactly `sha1=` followed by the lowercase hex of
/// `digest`.
pub fn signature_matches(digest: &[u8], signature: &str) -> (same: bool)
    ensures
        same == (signature@ == signature_text(digest@)),
{
    let mut expected = String::from_str("sha1=");
    let digits = hex_encode(digest);
    expected.append(digits.as_str());
    same_text(expected.as_str(), signature)
}

/// What a finished digest computation means for a supplied signature: a
/// digest that could not be started is an invalid key, anything else is a
/// plain match or mismatch.
pub fn judge_signature(digest: Option<&[u8]>, signature: &str) -> (verdict: Result<
    bool,
    VerificationError,
>)
    ensures
        verdict == match digest {
            Some(bytes) => Ok::<bool, VerificationError>(signature@ == signature_text(bytes@)),
            None => Err(VerificationError::InvalidKey),
        },
{
    match digest {
        Some(bytes) => Ok(signature_matches(bytes, signature)),
        None => Err(VerificationError::InvalidKey),
    }
}

/// Authenticates `payload`: computes its HMAC-SHA1 under `secret` and
/// compares `sha1=<hex>` of it with `signature`. A signature that is not
/// [`SIGNATURE_LENGTH`] characters long is never accepted.
pub fn verify(secret: &[u8], payload: &[u8], signature: &str) -> (verdict: Result<
    bool,
    VerificationError,
>)
    ensures
        verdict == Ok::<bool, VerificationError>(accepts(secret@, payload@, signature@)),
        hmac_sha1(secret@, payload@).len() == DIGEST_LENGTH,
        signature@.len() != SIGNATURE_LENGTH ==> verdict == Ok::<bool, VerificationError>(false),
{
    proof {
        lemma_signature_text_len(hmac_sha1(secret@, payload@));
    }
    match hmac_sha1_digest(secret, payload) {
        Ok(digest) => judge_signature(Some(digest.as_slice()), signature),
        Err(_) => judge_signature(None, signature),
    }
}

} // verus!
