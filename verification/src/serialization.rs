//! The key string codec: `"ed25519:" + base58(bytes)` and its inverse.

use vstd::prelude::*;
use vstd::string::StringExecFns;

verus! {

/// The number of raw bytes in an ed25519 signing key.
pub const ED25519_KEY_LENGTH: usize = 32;

/// The textual prefix that marks an encoded ed25519 key.
pub open spec fn prefix() -> Seq<char> {
    "ed25519:"@
}

/// The text that `bs58::encode` produces for the given bytes. Left
/// uninterpreted: base58 encoding is a pure function of the input bytes,
/// and the contracts below only relate it to `base58_decoding`.
pub uninterp spec fn base58_encoding(bytes: Seq<u8>) -> Seq<char>;

/// The bytes that `bs58::decode` produces for the given text, or `None`
/// where the text is rejected as not being valid base58.
pub uninterp spec fn base58_decoding(s: Seq<char>) -> Option<Seq<u8>>;

#[verifier::external_type_specification]
#[verifier::external_body]
pub struct ExBs58DecodeError(bs58::decode::Error);

/// Relies on `bs58::encode` with its default (Bitcoin) alphabet: the
/// returned text is a function of the input bytes alone, and `bs58::decode`
/// maps it back to exactly the input bytes.
#[verifier::external_body]
fn base58_encode(bytes: &Vec<u8>) -> (r: String)
    ensures
        r@ == base58_encoding(bytes@),
        base58_decoding(r@) == Some(bytes@),
{
    bs58::encode(bytes.as_slice()).into_string()
}

/// Relies on `bs58::decode` with its default (Bitcoin) alphabet: the
/// outcome is a function of the input text alone, the decoded bytes on
/// success and an error where the text is not valid base58.
#[verifier::external_body]
fn base58_decode(s: &str) -> (r: Result<Vec<u8>, bs58::decode::Error>)
    ensures
        r is Ok <==> base58_decoding(s@) is Some,
        r matches Ok(v) ==> Some(v@) == base58_decoding(s@),
{
    bs58::decode(s).into_vec()
}

/// Relies on `str::strip_prefix`: the result is `Some` exactly when `s`
/// starts with `p`, and then holds the remainder of `s` after `p`.
#[verifier::external_body]
fn strip_prefix_str<'a>(s: &'a str, p: &str) -> (r: Option<&'a str>)
    ensures
        r is Some <==> (s@.len() >= p@.len() && s@.subrange(0, p@.len() as int) == p@),
        r matches Some(t) ==> (s@ == p@ + t@),
{
    s.strip_prefix(p)
}

/// An ed25519 signing key, held as its raw 32 secret bytes. The codec
/// never inspects the bytes beyond their length.
pub struct SigningKey {
    bytes: Vec<u8>,
}

impl View for SigningKey {
    type V = Seq<u8>;

    closed spec fn view(&self) -> Seq<u8> {
        self.bytes@
    }
}

impl SigningKey {
    /// A well-formed key holds exactly 32 bytes.
    pub open spec fn wf(&self) -> bool {
        self@.len() == ED25519_KEY_LENGTH
    }

    /// Import a key from its raw 32-byte representation. This cannot fail:
    /// the key type puts no structural demand on the bytes.
    pub fn from_bytes(bytes: &[u8; 32]) -> (k: SigningKey)
        ensures
            k@ == bytes@,
            k.wf(),
    {
        SigningKey { bytes: vstd::slice::slice_to_vec(bytes.as_slice()) }
    }

    /// Export the key's raw 32 bytes.
    pub fn to_bytes(&self) -> (r: Vec<u8>)
        ensures
            r@ == self@,
    {
        vstd::slice::slice_to_vec(self.bytes.as_slice())
    }
}

/// Whether `s` starts with the `ed25519:` prefix.
pub open spec fn has_prefix(s: Seq<char>) -> bool {
    s.len() >= prefix().len() && s.subrange(0, prefix().len() as int) == prefix()
}

/// The remainder of `s` after the prefix.
pub open spec fn payload(s: Seq<char>) -> Seq<char> {
    s.skip(prefix().len() as int)
}

/// The string that encodes the given key bytes.
pub open spec fn spec_encode(bytes: Seq<u8>) -> Seq<char> {
    prefix() + base58_encoding(bytes)
}

/// The 32 key bytes that `s` decodes to, or `None` where `s` is rejected:
/// no prefix, not base58 after the prefix, or a payload of the wrong length.
pub open spec fn spec_decode(s: Seq<char>) -> Option<Seq<u8>> {
    if !has_prefix(s) {
        None
    } else {
        match base58_decoding(payload(s)) {
            Some(b) => if b.len() == ED25519_KEY_LENGTH {
                Some(b)
            } else {
                None
            },
            None => None,
        }
    }
}

/// Which error decoding `s` must report: the first of the three checks
/// (prefix, base58, length) that rejects it.
pub open spec fn decode_error_matches(s: Seq<char>, e: KeyError) -> bool {
    if !has_prefix(s) {
        e is MissingPrefix
    } else {
        match base58_decoding(payload(s)) {
            None => e is InvalidBase58,
            Some(b) => (e matches KeyError::InvalidLength { expected, actual }
                && expected == ED25519_KEY_LENGTH && actual == b.len()),
        }
    }
}

/// The ways decoding an encoded key string can fail.
#[derive(Debug)]
pub enum KeyError {
    /// The input does not start with the `ed25519:` prefix.
    MissingPrefix,
    /// The text after the prefix is not valid base58; carries the
    /// underlying decoder diagnostic.
    InvalidBase58(bs58::decode::Error),
    /// The decoded payload does not hold exactly 32 bytes.
    InvalidLength { expected: usize, actual: usize },
}

/// The round-trip law: a 32-byte value survives encode-then-decode
/// unchanged. The second premise — that base58 decoding inverts base58
/// encoding on these bytes — is what the trusted base58 wrappers state of
/// every call, so `encode_key` discharges it for every string it returns.
pub proof fn lemma_round_trip(bytes: Seq<u8>)
    requires
        bytes.len() == ED25519_KEY_LENGTH,
        base58_decoding(base58_encoding(bytes)) == Some(bytes),
    ensures
        spec_decode(spec_encode(bytes)) == Some(bytes),
{
    assert(spec_encode(bytes).subrange(0, prefix().len() as int) =~= prefix());
    assert(payload(spec_encode(bytes)) =~= base58_encoding(bytes));
}

/// Encode a signing key as the prefix `ed25519:` followed by the base58
/// encoding of its 32 raw bytes. Encoding cannot fail.
///
/// The second postcondition is the round-trip law: the returned string
/// decodes back to exactly this key's bytes.
pub fn encode_key(key: &SigningKey) -> (r: String)
    requires
        key.wf(),
    ensures
        r@ == spec_encode(key@),
        spec_decode(r@) == Some(key@),
{
    let b58 = base58_encode(&key.bytes);
    let mut r = String::new();
    r.append("ed25519:");
    r.append(b58.as_str());
    proof {
        assert(r@ =~= spec_encode(key@));
        lemma_round_trip(key@);
    }
    r
}

/// Decode a signing key from a string of the form `ed25519:<base58>`.
///
/// Succeeds exactly on strings that carry the prefix followed by valid
/// base58 text decoding to 32 bytes; each rejected string yields the
/// error of the first check that failed.
pub fn decode_key(s: &str) -> (r: Result<SigningKey, KeyError>)
    ensures
        r is Ok <==> spec_decode(s@) is Some,
        r matches Ok(k) ==> Some(k@) == spec_decode(s@) && k.wf(),
        r matches Err(e) ==> decode_error_matches(s@, e),
{
    let key_str = match strip_prefix_str(s, "ed25519:") {
        Some(t) => t,
        None => {
            return Err(KeyError::MissingPrefix);
        },
    };
    proof {
        assert(s@.subrange(0, prefix().len() as int) =~= prefix());
        assert(payload(s@) =~= key_str@);
    }
    let key_bytes = match base58_decode(key_str) {
        Ok(v) => v,
        Err(e) => {
            return Err(KeyError::InvalidBase58(e));
        },
    };
    if key_bytes.len() != ED25519_KEY_LENGTH {
        return Err(KeyError::InvalidLength {
            expected: ED25519_KEY_LENGTH,
            actual: key_bytes.len(),
        });
    }
    Ok(SigningKey { bytes: key_bytes })
}

/// Encode a list of signing keys, in order. Besides giving each element's
/// value, the last postcondition states the list round-trip law: every
/// returned string decodes back to the bytes of the key at its position.
pub fn encode_keys(keys: &Vec<SigningKey>) -> (r: Vec<String>)
    requires
        forall|i: int| 0 <= i < keys@.len() ==> (#[trigger] keys@[i]).wf(),
    ensures
        r@.len() == keys@.len(),
        forall|i: int| 0 <= i < keys@.len() ==> (#[trigger] r@[i])@ == spec_encode(keys@[i]@),
        forall|i: int| 0 <= i < keys@.len() ==> spec_decode((#[trigger] r@[i])@) == Some(keys@[i]@),
{
    let mut r: Vec<String> = Vec::new();
    let mut i: usize = 0;
    while i < keys.len()
        invariant
            i <= keys@.len(),
            r@.len() == i,
            forall|j: int| 0 <= j < keys@.len() ==> (#[trigger] keys@[j]).wf(),
            forall|j: int| 0 <= j < i ==> (#[trigger] r@[j])@ == spec_encode(keys@[j]@),
            forall|j: int| 0 <= j < i ==> spec_decode((#[trigger] r@[j])@) == Some(keys@[j]@),
        decreases keys@.len() - i,
    {
        let encoded = encode_key(&keys[i]);
        r.push(encoded);
        i = i + 1;
    }
    r
}

/// Decode a list of encoded key strings, in order, failing fast: the
/// result is the whole decoded list, or the error of the first string
/// that is rejected, with no partial list.
pub fn decode_keys(strings: &Vec<String>) -> (r: Result<Vec<SigningKey>, KeyError>)
    ensures
        r is Ok <==> (forall|i: int|
            0 <= i < strings@.len() ==> spec_decode((#[trigger] strings@[i])@) is Some),
        r matches Ok(ks) ==> ks@.len() == strings@.len() && (forall|i: int|
            0 <= i < strings@.len() ==> Some((#[trigger] ks@[i])@) == spec_decode(strings@[i]@)
                && ks@[i].wf()),
        r matches Err(e) ==> (exists|i: int|
            0 <= i < strings@.len() && spec_decode((#[trigger] strings@[i])@) is None
                && decode_error_matches(strings@[i]@, e) && (forall|j: int|
                0 <= j < i ==> spec_decode((#[trigger] strings@[j])@) is Some)),
{
    let mut ks: Vec<SigningKey> = Vec::new();
    let mut i: usize = 0;
    while i < strings.len()
        invariant
            i <= strings@.len(),
            ks@.len() == i,
            forall|j: int| 0 <= j < i ==> spec_decode((#[trigger] strings@[j])@) is Some,
            forall|j: int|
                0 <= j < i ==> Some((#[trigger] ks@[j])@) == spec_decode(strings@[j]@)
                    && ks@[j].wf(),
        decreases strings@.len() - i,
    {
        match decode_key(strings[i].as_str()) {
            Ok(k) => {
                ks.push(k);
            },
            Err(e) => {
                return Err(e);
            },
        }
        i = i + 1;
    }
    Ok(ks)
}

} // verus!
