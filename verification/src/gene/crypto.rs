//! Ed25519 keys and signatures (ring), SHA3-256 fingerprints (sha3) and
//! base64 text (base64), behind small trusted wrappers.

use vstd::prelude::*;
use base64::Engine;
use ring::signature::KeyPair;
use sha3::Digest;
use crate::ids::{hex_bytes, hex_encode, lemma_hex_bytes_len};
use crate::text::{str_chars, string_from_chars};

verus! {

/// Secret bytes held in a `zeroize::Zeroizing<Vec<u8>>`, wiped when dropped.
#[verifier::external_body]
pub struct SecretBytes {
    inner: zeroize::Zeroizing<Vec<u8>>,
}

/// The bytes a `SecretBytes` holds.
pub uninterp spec fn secret_contents(z: SecretBytes) -> Seq<u8>;

/// `Zeroizing::new`: takes ownership of the bytes, to be wiped on drop.
#[verifier::external_body]
fn secret_new(v: Vec<u8>) -> (z: SecretBytes)
    ensures
        secret_contents(z) == v@,
{
    SecretBytes { inner: zeroize::Zeroizing::new(v) }
}

/// `Zeroizing`'s `Deref`: the bytes it holds.
#[verifier::external_body]
fn secret_bytes(z: &SecretBytes) -> (r: &[u8])
    ensures
        r@ == secret_contents(*z),
{
    z.inner.as_slice()
}

/// What `Sha3_256::digest` returns for the given bytes.
pub uninterp spec fn sha3_256_of(data: Seq<u8>) -> Seq<u8>;

/// `sha3::Sha3_256::digest`: the 32-byte SHA3-256 digest of `data`.
#[verifier::external_body]
fn sha3_256(data: &[u8]) -> (r: Vec<u8>)
    ensures
        r@ == sha3_256_of(data@),
        r@.len() == 32,
{
    sha3::Sha3_256::digest(data).to_vec()
}

/// What `ring::digest::digest(&SHA256, ..)` returns for the given bytes.
pub uninterp spec fn sha256_of(data: Seq<u8>) -> Seq<u8>;

/// `ring::digest::digest` with `SHA256`: the 32-byte SHA-256 digest of `data`.
#[verifier::external_body]
pub(crate) fn sha256(data: &[u8]) -> (r: Vec<u8>)
    ensures
        r@ == sha256_of(data@),
        r@.len() == 32,
{
    ring::digest::digest(&ring::digest::SHA256, data).as_ref().to_vec()
}

/// The character of the standard base64 alphabet (RFC 4648) for the
/// six-bit value `n`.
pub open spec fn base64_char(n: int) -> char {
    if n < 26 {
        (65 + n) as char
    } else if n < 52 {
        (97 + (n - 26)) as char
    } else if n < 62 {
        (48 + (n - 52)) as char
    } else if n == 62 {
        '+'
    } else {
        '/'
    }
}

/// Padded standard base64 (RFC 4648), as base64's `STANDARD` engine
/// writes it: each three bytes become four characters; a last group of
/// one or two bytes is padded with `=`.
pub open spec fn base64_text(b: Seq<u8>) -> Seq<char>
    decreases b.len(),
{
    if b.len() == 0 {
        Seq::empty()
    } else if b.len() == 1 {
        seq![base64_char(b[0] as int / 4), base64_char((b[0] as int % 4) * 16), '=', '=']
    } else if b.len() == 2 {
        seq![
            base64_char(b[0] as int / 4),
            base64_char((b[0] as int % 4) * 16 + b[1] as int / 16),
            base64_char((b[1] as int % 16) * 4),
            '=',
        ]
    } else {
        seq![
            base64_char(b[0] as int / 4),
            base64_char((b[0] as int % 4) * 16 + b[1] as int / 16),
            base64_char((b[1] as int % 16) * 4 + b[2] as int / 64),
            base64_char(b[2] as int % 64),
        ] + base64_text(b.skip(3))
    }
}

/// Base64 text has four characters for every three bytes begun.
pub proof fn lemma_base64_len(b: Seq<u8>)
    ensures
        base64_text(b).len() == 4 * ((b.len() + 2) / 3),
    decreases b.len(),
{
    if b.len() > 2 {
        lemma_base64_len(b.skip(3));
    }
}

/// What base64's `STANDARD` engine decodes the given text to, if it
/// accepts it. (Its rules on padding and on the unused bits of the last
/// character are those of base64's decoder, and are not written out here.)
pub uninterp spec fn base64_decoded(s: Seq<char>) -> Option<Seq<u8>>;

/// `STANDARD.encode`: padded base64 text of `b`, which the same engine
/// decodes back to `b`.
#[verifier::external_body]
pub(crate) fn base64_encode(b: &[u8]) -> (r: String)
    ensures
        r@ == base64_text(b@),
        base64_decoded(r@) == Some(b@),
{
    base64::engine::general_purpose::STANDARD.encode(b)
}

/// `STANDARD.decode`: the bytes `s` encodes, or `None` where the engine
/// reports a decode error.
#[verifier::external_body]
pub(crate) fn base64_decode(s: &str) -> (r: Option<Vec<u8>>)
    ensures
        match r {
            Some(v) => base64_decoded(s@) == Some(v@),
            None => base64_decoded(s@) is None,
        },
{
    base64::engine::general_purpose::STANDARD.decode(s).ok()
}

/// `Ed25519KeyPair::from_pkcs8` accepts the document.
pub uninterp spec fn ed25519_pkcs8_accepted(pkcs8: Seq<u8>) -> bool;

/// The public key of the key pair a PKCS#8 document holds.
pub uninterp spec fn ed25519_public_key_of(pkcs8: Seq<u8>) -> Seq<u8>;

/// The signature of `msg` under the key pair a PKCS#8 document holds.
pub uninterp spec fn ed25519_signature_of(pkcs8: Seq<u8>, msg: Seq<u8>) -> Seq<u8>;

/// `UnparsedPublicKey::new(&ED25519, pk).verify(msg, sig)` succeeds.
pub uninterp spec fn ed25519_verifies(pk: Seq<u8>, msg: Seq<u8>, sig: Seq<u8>) -> bool;

/// `Ed25519KeyPair::generate_pkcs8` with a `SystemRandom`: a fresh random
/// key pair as a PKCS#8 document, or `None` where ring reports failure.
/// Nothing is claimed of the bytes.
#[verifier::external_body]
fn ed25519_generate_pkcs8() -> (r: Option<Vec<u8>>) {
    let rng = ring::rand::SystemRandom::new();
    ring::signature::Ed25519KeyPair::generate_pkcs8(&rng).ok().map(|d| d.as_ref().to_vec())
}

/// `Ed25519KeyPair::from_pkcs8` then `public_key`: the public key bytes,
/// present exactly when ring accepts the document.
#[verifier::external_body]
fn ed25519_public_key(pkcs8: &[u8]) -> (r: Option<Vec<u8>>)
    ensures
        r is Some <==> ed25519_pkcs8_accepted(pkcs8@),
        r matches Some(k) ==> k@ == ed25519_public_key_of(pkcs8@),
{
    ring::signature::Ed25519KeyPair::from_pkcs8(pkcs8).ok().map(|p| p.public_key().as_ref().to_vec())
}

/// `Ed25519KeyPair::from_pkcs8` then `sign`: the signature of `msg`,
/// present exactly when ring accepts the document; it verifies under the
/// document's public key.
#[verifier::external_body]
fn ed25519_sign(pkcs8: &[u8], msg: &[u8]) -> (r: Option<Vec<u8>>)
    ensures
        r is Some <==> ed25519_pkcs8_accepted(pkcs8@),
        r matches Some(s) ==> s@ == ed25519_signature_of(pkcs8@, msg@),
        r matches Some(s) ==> ed25519_verifies(ed25519_public_key_of(pkcs8@), msg@, s@),
{
    ring::signature::Ed25519KeyPair::from_pkcs8(pkcs8).ok().map(|p| p.sign(msg).as_ref().to_vec())
}

/// `UnparsedPublicKey::new(&ED25519, pk).verify(msg, sig).is_ok()`.
#[verifier::external_body]
fn ed25519_verify(pk: &[u8], msg: &[u8], sig: &[u8]) -> (r: bool)
    ensures
        r == ed25519_verifies(pk@, msg@, sig@),
{
    ring::signature::UnparsedPublicKey::new(&ring::signature::ED25519, pk).verify(msg, sig).is_ok()
}

/// Why a key operation failed.
#[derive(Debug, Clone, Copy, PartialEq, Eq)]
pub enum CryptoError {
    /// "Key generation failed"
    KeyGeneration,
    /// "PKCS8 parse failed"
    Pkcs8Parse,
    /// "Invalid PKCS8 key"
    InvalidPkcs8,
}

/// The text an error displays.
pub open spec fn crypto_error_text(e: CryptoError) -> Seq<char> {
    match e {
        CryptoError::KeyGeneration => "Key generation failed"@,
        CryptoError::Pkcs8Parse => "PKCS8 parse failed"@,
        CryptoError::InvalidPkcs8 => "Invalid PKCS8 key"@,
    }
}

impl CryptoError {
    pub fn message(&self) -> (r: String)
        ensures
            r@ == crypto_error_text(*self),
    {
        match self {
            CryptoError::KeyGeneration => "Key generation failed".to_string(),
            CryptoError::Pkcs8Parse => "PKCS8 parse failed".to_string(),
            CryptoError::InvalidPkcs8 => "Invalid PKCS8 key".to_string(),
        }
    }
}

/// An Ed25519 key pair: the PKCS#8 document (wiped on drop) and the public
/// key it holds.
pub struct GeneKeyPair {
    pkcs8: SecretBytes,
    pub_key: Vec<u8>,
}

impl GeneKeyPair {
    /// The public key is the one the document holds, and ring accepts the document.
    #[verifier::type_invariant]
    pub open spec fn consistent(self) -> bool {
        &&& ed25519_pkcs8_accepted(self.pkcs8_view())
        &&& self.public_key_view() == ed25519_public_key_of(self.pkcs8_view())
    }

    /// The PKCS#8 document.
    pub closed spec fn pkcs8_view(&self) -> Seq<u8> {
        secret_contents(self.pkcs8)
    }

    /// The public key.
    pub closed spec fn public_key_view(&self) -> Seq<u8> {
        self.pub_key@
    }

    /// Generate a new random Ed25519 key pair.
    pub fn generate() -> (r: Result<Self, CryptoError>)
        ensures
            r matches Ok(kp) ==> ed25519_pkcs8_accepted(kp.pkcs8_view()) && kp.public_key_view()
                == ed25519_public_key_of(kp.pkcs8_view()),
            r matches Err(e) ==> e == CryptoError::KeyGeneration || e == CryptoError::Pkcs8Parse,
    {
        let pkcs8 = match ed25519_generate_pkcs8() {
            Some(d) => d,
            None => return Err(CryptoError::KeyGeneration),
        };
        let pub_key = match ed25519_public_key(pkcs8.as_slice()) {
            Some(k) => k,
            None => return Err(CryptoError::Pkcs8Parse),
        };
        Ok(GeneKeyPair { pkcs8: secret_new(pkcs8), pub_key })
    }

    /// Load from existing PKCS#8 bytes: accepted exactly when ring accepts them.
    pub fn from_pkcs8(bytes: Vec<u8>) -> (r: Result<Self, CryptoError>)
        ensures
            r is Ok <==> ed25519_pkcs8_accepted(bytes@),
            r matches Ok(kp) ==> kp.pkcs8_view() == bytes@ && kp.public_key_view()
                == ed25519_public_key_of(bytes@),
            r matches Err(e) ==> e == CryptoError::InvalidPkcs8,
    {
        let pub_key = match ed25519_public_key(bytes.as_slice()) {
            Some(k) => k,
            None => return Err(CryptoError::InvalidPkcs8),
        };
        Ok(GeneKeyPair { pkcs8: secret_new(bytes), pub_key })
    }

    /// The signature of `message` under this key. Ring accepts every
    /// document a key pair holds, so signing always succeeds.
    pub fn sign(&self, message: &[u8]) -> (r: Vec<u8>)
        ensures
            r@ == ed25519_signature_of(self.pkcs8_view(), message@),
            ed25519_verifies(self.public_key_view(), message@, r@),
    {
        proof {
            use_type_invariant(self);
        }
        match ed25519_sign(secret_bytes(&self.pkcs8), message) {
            Some(s) => s,
            None => Vec::new(),
        }
    }

    /// The public key bytes.
    pub fn public_key_bytes(&self) -> (r: &[u8])
        ensures
            r@ == self.public_key_view(),
            r@ == ed25519_public_key_of(self.pkcs8_view()),
    {
        proof {
            use_type_invariant(self);
        }
        self.pub_key.as_slice()
    }

    /// The PKCS#8 private key bytes (handle with care).
    pub fn pkcs8_bytes(&self) -> (r: &[u8])
        ensures
            r@ == self.pkcs8_view(),
    {
        secret_bytes(&self.pkcs8)
    }

    /// Base64 of the public key, for display and storage.
    pub fn public_key_b64(&self) -> (r: String)
        ensures
            r@ == base64_text(self.public_key_view()),
            base64_decoded(r@) == Some(self.public_key_view()),
    {
        base64_encode(self.pub_key.as_slice())
    }

    /// Base64 of the PKCS#8 document, for storage.
    pub fn pkcs8_b64(&self) -> (r: String)
        ensures
            r@ == base64_text(self.pkcs8_view()),
            base64_decoded(r@) == Some(self.pkcs8_view()),
    {
        base64_encode(secret_bytes(&self.pkcs8))
    }
}

/// Whether `signature` is a valid Ed25519 signature of `message` under `public_key`.
pub fn verify_signature(public_key: &[u8], message: &[u8], signature: &[u8]) -> (r: bool)
    ensures
        r == ed25519_verifies(public_key@, message@, signature@),
{
    ed25519_verify(public_key, message, signature)
}

/// The fingerprint of `data`: lowercase hex of its SHA3-256 digest.
pub open spec fn fingerprint_text(data: Seq<u8>) -> Seq<char> {
    hex_bytes(sha3_256_of(data))
}

/// SHA3-256 fingerprint of `data` as 64 lowercase hex characters.
pub fn fingerprint(data: &[u8]) -> (r: String)
    ensures
        r@ == fingerprint_text(data@),
        r@.len() == 64,
{
    let d = sha3_256(data);
    hex_encode(d.as_slice())
}

/// The first 16 hex characters (8 bytes) of the fingerprint.
pub fn short_fingerprint(data: &[u8]) -> (r: String)
    ensures
        r@ == fingerprint_text(data@).take(16),
        r@.len() == 16,
{
    let f = fingerprint(data);
    let cs = str_chars(f.as_str());
    let (head, _) = cs.as_slice().split_at(16);
    assert(head@ =~= fingerprint_text(data@).take(16));
    string_from_chars(head)
}

} // verus!
