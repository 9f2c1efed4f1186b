//! Signed gene tokens: a JWT-like proof that a gene holds a capability
//! until an expiry instant. The claims travel as compact JSON, base64
//! encoded, signed with the issuer's Ed25519 key.

use vstd::prelude::*;
use vstd::utf8::encode_utf8;
use crate::gene::crypto::{
    GeneKeyPair, base64_decode, base64_decoded, base64_encode, base64_text,
    ed25519_signature_of, ed25519_verifies, fingerprint_text, short_fingerprint, verify_signature,
};
use crate::ids::{
    Timestamp, add_seconds, hex_char, instant_after, new_uuid_v4, now, push_uuid, uuid_text,
    valid_instant, within_calendar,
};
use crate::text::{decimal, push_decimal, push_str, str_chars, string_from_chars};

verus! {

/// Claims embedded in a token.
#[derive(Debug, Clone)]
pub struct TokenClaims {
    /// Subject gene ID.
    pub sub: u128,
    /// Capability being claimed.
    pub cap: String,
    /// Issued at (Unix seconds).
    pub iat: i64,
    /// Expiry (Unix seconds).
    pub exp: i64,
    /// Unique token ID.
    pub jti: u128,
}

/// A signed authorization token.
#[derive(Debug, Clone)]
pub struct GeneToken {
    /// Base64 of the JSON claims.
    pub claims_b64: String,
    /// Base64 of the Ed25519 signature of the `claims_b64` text.
    pub signature_b64: String,
    /// Base64 of the issuer's public key.
    pub issuer_pubkey_b64: String,
}

/// Why a token was not issued or not accepted.
#[derive(Debug, Clone, Copy, PartialEq, Eq)]
pub enum TokenError {
    /// The issuer's public key is not valid base64.
    PublicKeyEncoding,
    /// The signature is not valid base64.
    SignatureEncoding,
    /// "Token signature invalid"
    SignatureInvalid,
    /// The claims are not valid base64.
    ClaimsEncoding,
    /// "Token expired"
    Expired,
    /// The expiry instant lies outside the range of representable instants.
    ExpiryOutOfRange,
    /// The random source or the clock failed.
    Unavailable,
}

/// How JSON writes one character inside a string literal.
pub open spec fn json_escape(c: char) -> Seq<char> {
    if c == '"' {
        seq!['\\', '"']
    } else if c == '\\' {
        seq!['\\', '\\']
    } else if c == '\u{8}' {
        seq!['\\', 'b']
    } else if c == '\u{c}' {
        seq!['\\', 'f']
    } else if c == '\n' {
        seq!['\\', 'n']
    } else if c == '\r' {
        seq!['\\', 'r']
    } else if c == '\t' {
        seq!['\\', 't']
    } else if (c as u32) < 0x20 {
        seq!['\\', 'u', '0', '0', hex_char(((c as u32) / 16) as nat), hex_char(((c as u32) % 16) as nat)]
    } else {
        seq![c]
    }
}

/// The escaped body of a JSON string literal, as serde_json writes it.
pub open spec fn json_escaped(s: Seq<char>) -> Seq<char>
    decreases s.len(),
{
    if s.len() == 0 {
        Seq::empty()
    } else {
        json_escaped(s.drop_last()) + json_escape(s.last())
    }
}

/// Decimal text of a signed integer.
pub open spec fn int_text(n: int) -> Seq<char> {
    if n < 0 {
        seq!['-'] + decimal((-n) as nat)
    } else {
        decimal(n as nat)
    }
}

/// The compact JSON text of claims, fields in declaration order.
pub open spec fn claims_json(sub: u128, cap: Seq<char>, iat: i64, exp: i64, jti: u128) -> Seq<char> {
    "{\"sub\":\""@ + uuid_text(sub) + "\",\"cap\":\""@ + json_escaped(cap) + "\",\"iat\":"@
        + int_text(iat as int) + ",\"exp\":"@ + int_text(exp as int) + ",\"jti\":\""@ + uuid_text(
        jti,
    ) + "\"}"@
}

fn hex_digit(d: u32) -> (c: char)
    requires
        d < 16,
    ensures
        c == hex_char(d as nat),
{
    let ds = ['0', '1', '2', '3', '4', '5', '6', '7', '8', '9', 'a', 'b', 'c', 'd', 'e', 'f'];
    let c = ds[d as usize];
    proof {
        reveal_with_fuel(crate::text::digit_char, 1);
    }
    assert(c == hex_char(d as nat)) by {
        if d < 10 {
        }
    }
    c
}

fn push_escaped_char(out: &mut Vec<char>, c: char)
    ensures
        final(out)@ == old(out)@ + json_escape(c),
{
    if c == '"' {
        out.push('\\');
        out.push('"');
    } else if c == '\\' {
        out.push('\\');
        out.push('\\');
    } else if c == '\u{8}' {
        out.push('\\');
        out.push('b');
    } else if c == '\u{c}' {
        out.push('\\');
        out.push('f');
    } else if c == '\n' {
        out.push('\\');
        out.push('n');
    } else if c == '\r' {
        out.push('\\');
        out.push('r');
    } else if c == '\t' {
        out.push('\\');
        out.push('t');
    } else if (c as u32) < 0x20 {
        out.push('\\');
        out.push('u');
        out.push('0');
        out.push('0');
        out.push(hex_digit((c as u32) / 16));
        out.push(hex_digit((c as u32) % 16));
    } else {
        out.push(c);
    }
    assert(final(out)@ =~= old(out)@ + json_escape(c));
}

fn push_escaped(out: &mut Vec<char>, s: &str)
    ensures
        final(out)@ == old(out)@ + json_escaped(s@),
{
    let cs = str_chars(s);
    let ghost start = out@;
    let n = cs.len();
    let mut i: usize = 0;
    while i < n
        invariant
            n == cs@.len(),
            cs@ == s@,
            i <= n,
            out@ == start + json_escaped(cs@.take(i as int)),
        decreases n - i,
    {
        push_escaped_char(out, cs[i]);
        assert(cs@.take(i + 1).drop_last() =~= cs@.take(i as int));
        assert(start + json_escaped(cs@.take(i as int)) + json_escape(cs@[i as int]) =~= start
            + json_escaped(cs@.take(i + 1)));
        i = i + 1;
    }
    assert(cs@.take(n as int) =~= cs@);
}

fn push_int(out: &mut Vec<char>, n: i64)
    ensures
        final(out)@ == old(out)@ + int_text(n as int),
{
    if n < 0 {
        out.push('-');
        let m: u64 = (-(n as i128)) as u64;
        push_decimal(out, m);
        assert(final(out)@ =~= old(out)@ + int_text(n as int));
    } else {
        push_decimal(out, n as u64);
    }
}

impl TokenClaims {
    /// The claims as compact JSON: `{"sub":…,"cap":…,"iat":…,"exp":…,"jti":…}`,
    /// with IDs as hyphenated UUIDs and the capability escaped as JSON does.
    pub fn to_json(&self) -> (r: String)
        ensures
            r@ == claims_json(self.sub, self.cap@, self.iat, self.exp, self.jti),
    {
        let mut v: Vec<char> = Vec::new();
        push_str(&mut v, "{\"sub\":\"");
        push_uuid(&mut v, self.sub);
        push_str(&mut v, "\",\"cap\":\"");
        push_escaped(&mut v, self.cap.as_str());
        push_str(&mut v, "\",\"iat\":");
        push_int(&mut v, self.iat);
        push_str(&mut v, ",\"exp\":");
        push_int(&mut v, self.exp);
        push_str(&mut v, ",\"jti\":\"");
        push_uuid(&mut v, self.jti);
        push_str(&mut v, "\"}");
        string_from_chars(v.as_slice())
    }
}

/// A token carries these claims, signed by the key pair whose PKCS#8
/// document is `pkcs8` and whose public key is `pk`.
pub open spec fn token_of(t: GeneToken, json: Seq<char>, pkcs8: Seq<u8>, pk: Seq<u8>) -> bool {
    &&& t.claims_b64@ == base64_text(encode_utf8(json))
    &&& t.signature_b64@ == base64_text(ed25519_signature_of(pkcs8, encode_utf8(t.claims_b64@)))
    &&& t.issuer_pubkey_b64@ == base64_text(pk)
}

/// What checking a token gives: the first failing check's error (issuer
/// key not base64, signature not base64, signature not valid over the
/// claims text, claims not base64), else the decoded claims bytes.
pub open spec fn claims_check(t: GeneToken) -> Result<Seq<u8>, TokenError> {
    match base64_decoded(t.issuer_pubkey_b64@) {
        None => Err(TokenError::PublicKeyEncoding),
        Some(pk) => match base64_decoded(t.signature_b64@) {
            None => Err(TokenError::SignatureEncoding),
            Some(sig) => if !ed25519_verifies(pk, encode_utf8(t.claims_b64@), sig) {
                Err(TokenError::SignatureInvalid)
            } else {
                match base64_decoded(t.claims_b64@) {
                    None => Err(TokenError::ClaimsEncoding),
                    Some(c) => Ok(c),
                }
            },
        },
    }
}

impl GeneToken {
    /// Issue a token for `capability`, valid `valid_secs` seconds from now,
    /// with a fresh random token ID.
    pub fn issue(gene_id: u128, capability: &str, valid_secs: i64, keypair: &GeneKeyPair) -> (r: Result<
        GeneToken,
        TokenError,
    >)
        requires
            -(i64::MAX / 1000) <= valid_secs <= i64::MAX / 1000,
        ensures
            r matches Err(e) ==> e == TokenError::ExpiryOutOfRange || e == TokenError::Unavailable,
            r matches Ok(t) ==> exists|at: Timestamp, jti: u128|
                token_of(
                    t,
                    #[trigger] claims_json(gene_id, capability@, at.secs, instant_after(at, valid_secs).secs, jti),
                    keypair.pkcs8_view(),
                    keypair.public_key_view(),
                ) && claims_check(t) == Ok::<Seq<u8>, TokenError>(
                    encode_utf8(claims_json(gene_id, capability@, at.secs, instant_after(at, valid_secs).secs, jti)),
                ),
    {
        let at = match now() {
            Some(t) => t,
            None => return Err(TokenError::Unavailable),
        };
        let jti = match new_uuid_v4() {
            Some(u) => u,
            None => return Err(TokenError::Unavailable),
        };
        GeneToken::issue_at(gene_id, capability, at, valid_secs, jti, keypair)
    }

    /// Issue a token at instant `at` with token ID `jti`: the claims are
    /// `{sub: gene_id, cap: capability, iat: at, exp: at + valid_secs, jti}`.
    /// It is issued whenever `at` and its expiry lie within the calendar.
    pub fn issue_at(
        gene_id: u128,
        capability: &str,
        at: Timestamp,
        valid_secs: i64,
        jti: u128,
        keypair: &GeneKeyPair,
    ) -> (r: Result<GeneToken, TokenError>)
        requires
            -(i64::MAX / 1000) <= valid_secs <= i64::MAX / 1000,
        ensures
            r matches Err(e) ==> e == TokenError::ExpiryOutOfRange,
            valid_instant(at) && within_calendar(at.secs as int) && within_calendar(at.secs + valid_secs)
                ==> r is Ok,
            r matches Ok(t) ==> token_of(
                t,
                claims_json(gene_id, capability@, at.secs, instant_after(at, valid_secs).secs, jti),
                keypair.pkcs8_view(),
                keypair.public_key_view(),
            ),
            r matches Ok(t) ==> claims_check(t) == Ok::<Seq<u8>, TokenError>(
                encode_utf8(claims_json(gene_id, capability@, at.secs, instant_after(at, valid_secs).secs, jti)),
            ),
    {
        let exp = match add_seconds(at, valid_secs) {
            Some(e) => e,
            None => return Err(TokenError::ExpiryOutOfRange),
        };
        let claims = TokenClaims {
            sub: gene_id,
            cap: capability.to_string(),
            iat: at.secs,
            exp: exp.secs,
            jti,
        };
        let json = claims.to_json();
        let claims_b64 = base64_encode(json.as_str().as_bytes());
        let signature = keypair.sign(claims_b64.as_str().as_bytes());
        let signature_b64 = base64_encode(signature.as_slice());
        Ok(GeneToken { claims_b64, signature_b64, issuer_pubkey_b64: keypair.public_key_b64() })
    }

    /// Check the signature and decode the claims' JSON bytes: the issuer key
    /// and signature must be base64, the signature must verify over the
    /// `claims_b64` text, and the claims must be base64.
    pub fn verified_claims_json(&self) -> (r: Result<Vec<u8>, TokenError>)
        ensures
            match claims_check(*self) {
                Ok(c) => r matches Ok(v) && v@ == c,
                Err(e) => r == Err::<Vec<u8>, TokenError>(e),
            },
    {
        let pubkey = match base64_decode(self.issuer_pubkey_b64.as_str()) {
            Some(p) => p,
            None => return Err(TokenError::PublicKeyEncoding),
        };
        let sig = match base64_decode(self.signature_b64.as_str()) {
            Some(s) => s,
            None => return Err(TokenError::SignatureEncoding),
        };
        if !verify_signature(pubkey.as_slice(), self.claims_b64.as_str().as_bytes(), sig.as_slice()) {
            return Err(TokenError::SignatureInvalid);
        }
        match base64_decode(self.claims_b64.as_str()) {
            Some(c) => Ok(c),
            None => Err(TokenError::ClaimsEncoding),
        }
    }

    /// Accept decoded claims at Unix second `now_secs`: expired when `exp`
    /// lies before it.
    pub fn accept_claims_at(claims: TokenClaims, now_secs: i64) -> (r: Result<TokenClaims, TokenError>)
        ensures
            claims.exp < now_secs ==> r == Err::<TokenClaims, TokenError>(TokenError::Expired),
            claims.exp >= now_secs ==> r == Ok::<TokenClaims, TokenError>(claims),
    {
        if claims.exp < now_secs {
            Err(TokenError::Expired)
        } else {
            Ok(claims)
        }
    }

    /// Accept decoded claims now.
    pub fn accept_claims(claims: TokenClaims) -> (r: Result<TokenClaims, TokenError>)
        ensures
            r is Ok ==> r == Ok::<TokenClaims, TokenError>(claims),
            r matches Err(e) ==> e == TokenError::Expired || e == TokenError::Unavailable,
    {
        let t = match now() {
            Some(t) => t,
            None => return Err(TokenError::Unavailable),
        };
        GeneToken::accept_claims_at(claims, t.secs)
    }

    /// Token fingerprint for logging: the short fingerprint of the claims
    /// text followed by the signature text.
    pub fn fingerprint(&self) -> (r: String)
        ensures
            r@ == fingerprint_text(encode_utf8(self.claims_b64@ + self.signature_b64@)).take(16),
    {
        let mut v: Vec<char> = Vec::new();
        push_str(&mut v, self.claims_b64.as_str());
        push_str(&mut v, self.signature_b64.as_str());
        let data = string_from_chars(v.as_slice());
        short_fingerprint(data.as_str().as_bytes())
    }
}

/// The text an error displays.
pub open spec fn token_error_text(e: TokenError) -> Seq<char> {
    match e {
        TokenError::PublicKeyEncoding => "Invalid base64 in issuer public key"@,
        TokenError::SignatureEncoding => "Invalid base64 in token signature"@,
        TokenError::SignatureInvalid => "Token signature invalid"@,
        TokenError::ClaimsEncoding => "Invalid base64 in token claims"@,
        TokenError::Expired => "Token expired"@,
        TokenError::ExpiryOutOfRange => "Token expiry out of range"@,
        TokenError::Unavailable => "Random source or clock unavailable"@,
    }
}

impl TokenError {
    pub fn message(&self) -> (r: String)
        ensures
            r@ == token_error_text(*self),
    {
        match self {
            TokenError::PublicKeyEncoding => "Invalid base64 in issuer public key".to_string(),
            TokenError::SignatureEncoding => "Invalid base64 in token signature".to_string(),
            TokenError::SignatureInvalid => "Token signature invalid".to_string(),
            TokenError::ClaimsEncoding => "Invalid base64 in token claims".to_string(),
            TokenError::Expired => "Token expired".to_string(),
            TokenError::ExpiryOutOfRange => "Token expiry out of range".to_string(),
            TokenError::Unavailable => "Random source or clock unavailable".to_string(),
        }
    }
}

} // verus!
