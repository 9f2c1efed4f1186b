//! WebAuthn / passkey challenges for biometric login on mobile clients.

use vstd::prelude::*;
use vstd::utf8::{decode_utf8, encode_utf8, encode_utf8_decode_utf8};
use crate::gene::crypto::{
    base64_decode, base64_decoded, base64_encode, base64_text, ed25519_verifies, sha256, sha256_of,
    verify_signature,
};
use crate::ids::{
    Timestamp, add_seconds, instant_after, new_uuid_v4, now, push_uuid, uuid_text, valid_instant,
    within_calendar,
};
use crate::text::{push_str, string_from_chars};

verus! {

/// A challenge issued to an authenticator.
#[derive(Debug, Clone)]
pub struct PasskeyChallenge {
    pub challenge_id: u128,
    pub challenge_bytes_b64: String,
    pub rp_id: String,
    pub user_fingerprint: String,
    pub expires_at: Timestamp,
}

/// An authenticator's answer to a challenge.
#[derive(Debug, Clone)]
pub struct PasskeyAuthResponse {
    pub challenge_id: u128,
    pub authenticator_data_b64: String,
    pub client_data_json_b64: String,
    pub signature_b64: String,
    pub user_handle: String,
}

/// Issues and checks challenges for one relying party.
pub struct PasskeyEngine {
    rp_id: String,
}

/// Seconds a challenge stays valid.
pub const CHALLENGE_VALIDITY_SECS: i64 = 300;

/// Why a response was refused.
#[derive(Debug, Clone, Copy, PartialEq, Eq)]
pub enum PasskeyError {
    /// "Challenge ID mismatch"
    ChallengeIdMismatch,
    /// "Passkey challenge expired"
    Expired,
    /// "Passkey response is not valid base64"
    ResponseEncoding,
    /// "Passkey signature invalid"
    SignatureInvalid,
    /// "Passkey client data does not carry the challenge"
    ChallengeNotBound,
    /// "Random source or clock unavailable"
    Unavailable,
}

/// `a` is later than `b`.
pub open spec fn later(a: Timestamp, b: Timestamp) -> bool {
    a.secs > b.secs || (a.secs == b.secs && a.nanos > b.nanos)
}

impl PasskeyEngine {
    pub closed spec fn relying_party(&self) -> Seq<char> {
        self.rp_id@
    }

    pub fn new(rp_id: &str) -> (e: Self)
        ensures
            e.relying_party() == rp_id@,
    {
        PasskeyEngine { rp_id: rp_id.to_string() }
    }

    /// A challenge for `user_fingerprint` with a fresh ID, valid five minutes
    /// from now; `None` where the clock or the random source fails, or the
    /// expiry cannot be represented.
    pub fn create_challenge(&self, user_fingerprint: &str) -> (r: Option<PasskeyChallenge>)
        ensures
            r matches Some(c) ==> exists|at: Timestamp| #[trigger] challenge_for(
                c,
                self.relying_party(),
                user_fingerprint@,
                at,
            ),
    {
        let at = match now() {
            Some(t) => t,
            None => return None,
        };
        let id = match new_uuid_v4() {
            Some(u) => u,
            None => return None,
        };
        self.create_challenge_at(user_fingerprint, at, id)
    }

    /// The challenge with ID `challenge_id` issued at `at`: its bytes are the
    /// text `challenge-<id>`, in base64, and it expires 300 seconds later.
    /// It is issued whenever `at` and its expiry lie within the calendar.
    pub fn create_challenge_at(&self, user_fingerprint: &str, at: Timestamp, challenge_id: u128) -> (r:
        Option<PasskeyChallenge>)
        ensures
            valid_instant(at) && within_calendar(at.secs as int) && within_calendar(
                at.secs + CHALLENGE_VALIDITY_SECS,
            ) ==> r is Some,
            r matches Some(c) ==> challenge_for(c, self.relying_party(), user_fingerprint@, at)
                && c.challenge_id == challenge_id,
    {
        let expires_at = match add_seconds(at, CHALLENGE_VALIDITY_SECS) {
            Some(t) => t,
            None => return None,
        };
        let mut v: Vec<char> = Vec::new();
        push_str(&mut v, "challenge-");
        push_uuid(&mut v, challenge_id);
        let text = string_from_chars(v.as_slice());
        let bytes = text.as_str().as_bytes();
        proof {
            crate::ids::lemma_uuid_text_len(challenge_id);
            crate::gene::crypto::lemma_base64_len(bytes@);
            if bytes@.len() == 0 {
                encode_utf8_decode_utf8(text@);
                assert(bytes@ =~= Seq::<u8>::empty());
                assert(decode_utf8(Seq::<u8>::empty()) =~= Seq::<char>::empty());
            }
        }
        Some(PasskeyChallenge {
            challenge_id,
            challenge_bytes_b64: base64_encode(bytes),
            rp_id: self.rp_id.clone(),
            user_fingerprint: user_fingerprint.to_string(),
            expires_at,
        })
    }

    /// Check a response against its challenge now, with the credential's
    /// Ed25519 public key (see `verify_response_at`).
    pub fn verify_response(
        &self,
        response: &PasskeyAuthResponse,
        challenge: &PasskeyChallenge,
        credential_public_key: &[u8],
    ) -> (r: Result<bool, PasskeyError>)
        ensures
            response.challenge_id != challenge.challenge_id ==> r == Err::<bool, PasskeyError>(
                PasskeyError::ChallengeIdMismatch,
            ),
            response.challenge_id == challenge.challenge_id ==> r == signature_check(
                *response,
                challenge.challenge_bytes_b64@,
                credential_public_key@,
            ) || r == Err::<bool, PasskeyError>(PasskeyError::Expired) || r == Err::<bool, PasskeyError>(
                PasskeyError::Unavailable,
            ),
    {
        if response.challenge_id != challenge.challenge_id {
            return Err(PasskeyError::ChallengeIdMismatch);
        }
        let t = match now() {
            Some(t) => t,
            None => return Err(PasskeyError::Unavailable),
        };
        self.verify_response_at(response, challenge, credential_public_key, t)
    }

    /// Check a response against its challenge at instant `at`: the IDs must
    /// match, the challenge must not have expired before `at`, and the
    /// authenticator's signature must verify under the credential's public
    /// key (`signature_check`).
    pub fn verify_response_at(
        &self,
        response: &PasskeyAuthResponse,
        challenge: &PasskeyChallenge,
        credential_public_key: &[u8],
        at: Timestamp,
    ) -> (r: Result<bool, PasskeyError>)
        ensures
            r == response_check(*response, *challenge, credential_public_key@, at),
    {
        if response.challenge_id != challenge.challenge_id {
            return Err(PasskeyError::ChallengeIdMismatch);
        }
        if at.secs > challenge.expires_at.secs || (at.secs == challenge.expires_at.secs && at.nanos
            > challenge.expires_at.nanos) {
            return Err(PasskeyError::Expired);
        }
        let auth = match base64_decode(response.authenticator_data_b64.as_str()) {
            Some(b) => b,
            None => return Err(PasskeyError::ResponseEncoding),
        };
        let client = match base64_decode(response.client_data_json_b64.as_str()) {
            Some(b) => b,
            None => return Err(PasskeyError::ResponseEncoding),
        };
        let sig = match base64_decode(response.signature_b64.as_str()) {
            Some(b) => b,
            None => return Err(PasskeyError::ResponseEncoding),
        };
        if !contains_bytes(client.as_slice(), challenge.challenge_bytes_b64.as_str().as_bytes()) {
            return Err(PasskeyError::ChallengeNotBound);
        }
        let client_hash = sha256(client.as_slice());
        let mut signed = auth;
        let mut i: usize = 0;
        let ghost a = signed@;
        while i < client_hash.len()
            invariant
                i <= client_hash@.len(),
                signed@ == a + client_hash@.take(i as int),
            decreases client_hash@.len() - i,
        {
            signed.push(client_hash[i]);
            assert(client_hash@.take(i + 1) =~= client_hash@.take(i as int).push(client_hash@[i as int]));
            i = i + 1;
        }
        assert(client_hash@.take(client_hash@.len() as int) =~= client_hash@);
        if verify_signature(credential_public_key, signed.as_slice(), sig.as_slice()) {
            Ok(true)
        } else {
            Err(PasskeyError::SignatureInvalid)
        }
    }
}

/// The WebAuthn signature check of a response to the challenge whose
/// base64 text is `challenge_text`, under the credential's Ed25519 public
/// key `pk`: the authenticator data, client data and signature must be
/// base64, the client data must carry the challenge's text (so that a
/// signature made for another challenge is refused), and the signature
/// must verify over the authenticator data followed by the SHA-256 digest
/// of the client data.
pub open spec fn signature_check(response: PasskeyAuthResponse, challenge_text: Seq<char>, pk: Seq<u8>) -> Result<bool, PasskeyError> {
    match (
        base64_decoded(response.authenticator_data_b64@),
        base64_decoded(response.client_data_json_b64@),
        base64_decoded(response.signature_b64@),
    ) {
        (Some(auth), Some(client), Some(sig)) => if !bytes_contain(client, encode_utf8(challenge_text)) {
            Err(PasskeyError::ChallengeNotBound)
        } else if ed25519_verifies(pk, auth + sha256_of(client), sig) {
            Ok(true)
        } else {
            Err(PasskeyError::SignatureInvalid)
        },
        _ => Err(PasskeyError::ResponseEncoding),
    }
}

/// The bytes `t` occur contiguously in `s`.
pub open spec fn bytes_contain(s: Seq<u8>, t: Seq<u8>) -> bool {
    exists|i: int| 0 <= i && i + t.len() <= s.len() && #[trigger] s.subrange(i, i + t.len()) == t
}

fn bytes_match_at(s: &[u8], t: &[u8], i: usize) -> (r: bool)
    requires
        i + t@.len() <= s@.len(),
    ensures
        r == (s@.subrange(i as int, i + t@.len()) == t@),
{
    let mut k: usize = 0;
    let n = s.len();
    while k < t.len()
        invariant
            n == s@.len(),
            i + t@.len() <= s@.len(),
            k <= t@.len(),
            forall|j: int| 0 <= j < k ==> s@[i + j] == t@[j],
        decreases t@.len() - k,
    {
        assert(i + k < s@.len());
        if s[i + k] != t[k] {
            assert(s@.subrange(i as int, i + t@.len())[k as int] != t@[k as int]);
            return false;
        }
        k = k + 1;
    }
    assert(s@.subrange(i as int, i + t@.len()) =~= t@);
    true
}

/// Whether the bytes `t` occur contiguously in `s`.
fn contains_bytes(s: &[u8], t: &[u8]) -> (r: bool)
    ensures
        r == bytes_contain(s@, t@),
{
    if t.len() > s.len() {
        return false;
    }
    if t.len() == 0 {
        assert(s@.subrange(0, 0 + t@.len() as int) =~= t@);
        return true;
    }
    let last = s.len() - t.len();
    let n = s.len();
    let mut i: usize = 0;
    while i <= last
        invariant
            n == s@.len(),
            last == s@.len() - t@.len(),
            last < s@.len(),
            t@.len() <= s@.len(),
            forall|j: int| 0 <= j < i ==> #[trigger] s@.subrange(j, j + t@.len()) != t@,
        decreases last + 1 - i,
    {
        if bytes_match_at(s, t, i) {
            return true;
        }
        i = i + 1;
    }
    false
}

/// The outcome of checking `response` against `challenge` with the
/// credential's public key `pk` at `at`: the IDs must match, the challenge
/// must not have expired before `at`, and the signature must check.
pub open spec fn response_check(
    response: PasskeyAuthResponse,
    challenge: PasskeyChallenge,
    pk: Seq<u8>,
    at: Timestamp,
) -> Result<bool, PasskeyError> {
    if response.challenge_id != challenge.challenge_id {
        Err(PasskeyError::ChallengeIdMismatch)
    } else if later(at, challenge.expires_at) {
        Err(PasskeyError::Expired)
    } else {
        signature_check(response, challenge.challenge_bytes_b64@, pk)
    }
}

/// A response to a challenge is judged by its signature at any instant
/// from its issue until five minutes later, and refused as expired after
/// that.
pub proof fn lemma_challenge_window(
    c: PasskeyChallenge,
    rp: Seq<char>,
    user: Seq<char>,
    at: Timestamp,
    response: PasskeyAuthResponse,
    pk: Seq<u8>,
    t: Timestamp,
)
    requires
        challenge_for(c, rp, user, at),
        response.challenge_id == c.challenge_id,
    ensures
        !later(at, t) && !later(t, instant_after(at, CHALLENGE_VALIDITY_SECS)) ==> response_check(
            response,
            c,
            pk,
            t,
        ) == signature_check(response, c.challenge_bytes_b64@, pk),
        later(t, instant_after(at, CHALLENGE_VALIDITY_SECS)) ==> response_check(response, c, pk, t)
            == Err::<bool, PasskeyError>(PasskeyError::Expired),
{
}

/// A challenge lasts five minutes: issued at `at` (with nanoseconds below a
/// billion), it expires 300 seconds later at the same sub-second instant; a
/// response to it is judged by its signature at that instant and refused
/// as expired one second after. A response is accepted only when its
/// authenticator data, client data and signature are base64, the client
/// data carries the challenge's text, and the signature verifies under
/// the credential's key over the authenticator data followed by the
/// SHA-256 digest of the client data.
pub proof fn lemma_challenge_lasts_five_minutes(
    c: PasskeyChallenge,
    rp: Seq<char>,
    user: Seq<char>,
    at: Timestamp,
    response: PasskeyAuthResponse,
    pk: Seq<u8>,
)
    requires
        challenge_for(c, rp, user, at),
        response.challenge_id == c.challenge_id,
        at.nanos < 1_000_000_000,
        at.secs + 301 <= i64::MAX,
    ensures
        c.expires_at.secs == at.secs + 300 && c.expires_at.nanos == at.nanos,
        response_check(response, c, pk, Timestamp { secs: (at.secs + 300) as i64, nanos: at.nanos })
            == signature_check(response, c.challenge_bytes_b64@, pk),
        response_check(response, c, pk, Timestamp { secs: (at.secs + 301) as i64, nanos: at.nanos })
            == Err::<bool, PasskeyError>(PasskeyError::Expired),
        response_check(response, c, pk, Timestamp { secs: (at.secs + 300) as i64, nanos: at.nanos }) == Ok::<
            bool,
            PasskeyError,
        >(true) ==> {
            &&& base64_decoded(response.authenticator_data_b64@) matches Some(auth)
            &&& base64_decoded(response.client_data_json_b64@) matches Some(client)
            &&& base64_decoded(response.signature_b64@) matches Some(sig)
            &&& bytes_contain(client, encode_utf8(c.challenge_bytes_b64@))
            &&& ed25519_verifies(pk, auth + sha256_of(client), sig)
        },
{
}

/// `c` is the challenge for this relying party and user issued at `at`.
pub open spec fn challenge_for(c: PasskeyChallenge, rp: Seq<char>, user: Seq<char>, at: Timestamp) -> bool {
    &&& c.rp_id@ == rp
    &&& c.user_fingerprint@ == user
    &&& c.challenge_bytes_b64@ == base64_text(encode_utf8("challenge-"@ + uuid_text(c.challenge_id)))
    &&& c.challenge_bytes_b64@.len() > 0
    &&& c.expires_at == instant_after(at, CHALLENGE_VALIDITY_SECS)
}

/// The text an error displays.
pub open spec fn passkey_error_text(e: PasskeyError) -> Seq<char> {
    match e {
        PasskeyError::ChallengeIdMismatch => "Challenge ID mismatch"@,
        PasskeyError::Expired => "Passkey challenge expired"@,
        PasskeyError::ResponseEncoding => "Passkey response is not valid base64"@,
        PasskeyError::SignatureInvalid => "Passkey signature invalid"@,
        PasskeyError::ChallengeNotBound => "Passkey client data does not carry the challenge"@,
        PasskeyError::Unavailable => "Random source or clock unavailable"@,
    }
}

impl PasskeyError {
    pub fn message(&self) -> (r: String)
        ensures
            r@ == passkey_error_text(*self),
    {
        match self {
            PasskeyError::ChallengeIdMismatch => "Challenge ID mismatch".to_string(),
            PasskeyError::Expired => "Passkey challenge expired".to_string(),
            PasskeyError::ResponseEncoding => "Passkey response is not valid base64".to_string(),
            PasskeyError::SignatureInvalid => "Passkey signature invalid".to_string(),
            PasskeyError::ChallengeNotBound => "Passkey client data does not carry the challenge".to_string(),
            PasskeyError::Unavailable => "Random source or clock unavailable".to_string(),
        }
    }
}

} // verus!
