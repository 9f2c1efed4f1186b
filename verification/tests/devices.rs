use base64::Engine;
use netgene::gene::crypto::GeneKeyPair;
use netgene::ids::Timestamp;
use netgene::lite::{LiteNode, LiteNodeMode};
use netgene::mobile::bridge::MobileLiveBridge;
use netgene::mobile::passkey::{PasskeyAuthResponse, PasskeyEngine, PasskeyError};

#[test]
fn test_lite_node_mode_equality() {
    assert_eq!(LiteNodeMode::Sensor, LiteNodeMode::Sensor);
    assert_ne!(LiteNodeMode::Sensor, LiteNodeMode::Relay);
}

#[test]
fn test_passkey_challenge_generation() {
    let engine = PasskeyEngine::new("netgene.io");
    let challenge = engine.create_challenge("master-gene-01").unwrap();
    assert_eq!(challenge.rp_id, "netgene.io");
    assert!(!challenge.challenge_bytes_b64.is_empty());
}

#[test]
fn lite_node_keeps_its_id_and_mode() {
    let node = LiteNode::new("relay-01", LiteNodeMode::Relay);
    assert_eq!(node.id, "relay-01");
    assert_eq!(node.mode, LiteNodeMode::Relay);
}

fn b64(bytes: &[u8]) -> String {
    base64::engine::general_purpose::STANDARD.encode(bytes)
}

/// A response for challenge `id`, whose client data carries `challenge`,
/// signed by `kp` as a WebAuthn authenticator signs: over the authenticator
/// data and the SHA-256 of the client data.
fn signed_response(id: u128, challenge: &str, kp: &GeneKeyPair) -> PasskeyAuthResponse {
    let auth = b"authenticator-data".to_vec();
    let client = format!("{{\"type\":\"webauthn.get\",\"challenge\":\"{}\"}}", challenge).into_bytes();
    let mut signed = auth.clone();
    signed.extend_from_slice(ring::digest::digest(&ring::digest::SHA256, &client).as_ref());
    PasskeyAuthResponse {
        challenge_id: id,
        authenticator_data_b64: b64(&auth),
        client_data_json_b64: b64(&client),
        signature_b64: b64(&kp.sign(&signed)),
        user_handle: "u".to_string(),
    }
}

#[test]
fn passkey_challenge_text_and_expiry() {
    let kp = GeneKeyPair::generate().unwrap();
    let pk = kp.public_key_bytes();
    let engine = PasskeyEngine::new("rp");
    let at = Timestamp { secs: 100, nanos: 7 };
    let c = engine.create_challenge_at("user", at, 1).unwrap();
    // base64 of "challenge-00000000-0000-0000-0000-000000000001"
    assert_eq!(c.challenge_bytes_b64, "Y2hhbGxlbmdlLTAwMDAwMDAwLTAwMDAtMDAwMC0wMDAwLTAwMDAwMDAwMDAwMQ==");
    assert_eq!(c.expires_at, Timestamp { secs: 400, nanos: 7 });
    assert_eq!(c.user_fingerprint, "user");
    let ok = signed_response(1, &c.challenge_bytes_b64, &kp);
    assert_eq!(engine.verify_response_at(&ok, &c, pk, Timestamp { secs: 400, nanos: 7 }), Ok(true));
    assert_eq!(
        engine.verify_response_at(&ok, &c, pk, Timestamp { secs: 400, nanos: 8 }),
        Err(PasskeyError::Expired)
    );
    assert_eq!(
        engine.verify_response_at(&signed_response(2, &c.challenge_bytes_b64, &kp), &c, pk, at),
        Err(PasskeyError::ChallengeIdMismatch)
    );
    assert_eq!(
        engine.verify_response(&ok, &engine.create_challenge("u").unwrap(), pk).unwrap_err(),
        PasskeyError::ChallengeIdMismatch
    );
}

#[test]
fn passkey_responses_need_a_valid_signature() {
    let kp = GeneKeyPair::generate().unwrap();
    let other = GeneKeyPair::generate().unwrap();
    let engine = PasskeyEngine::new("rp");
    let at = Timestamp { secs: 100, nanos: 0 };
    let c = engine.create_challenge_at("user", at, 5).unwrap();
    let ok = signed_response(5, &c.challenge_bytes_b64, &kp);
    assert_eq!(engine.verify_response_at(&ok, &c, kp.public_key_bytes(), at), Ok(true));
    assert_eq!(
        engine.verify_response_at(&ok, &c, other.public_key_bytes(), at),
        Err(PasskeyError::SignatureInvalid)
    );
    let mut empty = ok.clone();
    empty.signature_b64 = String::new();
    assert_eq!(
        engine.verify_response_at(&empty, &c, kp.public_key_bytes(), at),
        Err(PasskeyError::SignatureInvalid)
    );
    let mut garbled = ok.clone();
    garbled.client_data_json_b64 = "!!".to_string();
    assert_eq!(
        engine.verify_response_at(&garbled, &c, kp.public_key_bytes(), at),
        Err(PasskeyError::ResponseEncoding)
    );
    assert_eq!(PasskeyError::SignatureInvalid.message(), "Passkey signature invalid");
}

#[test]
fn passkey_signatures_made_for_another_challenge_are_refused() {
    let kp = GeneKeyPair::generate().unwrap();
    let engine = PasskeyEngine::new("rp");
    let at = Timestamp { secs: 100, nanos: 0 };
    let earlier = engine.create_challenge_at("user", at, 6).unwrap();
    let c = engine.create_challenge_at("user", at, 7).unwrap();
    let replayed = signed_response(7, &earlier.challenge_bytes_b64, &kp);
    assert_eq!(
        engine.verify_response_at(&replayed, &c, kp.public_key_bytes(), at),
        Err(PasskeyError::ChallengeNotBound)
    );
    let fresh = signed_response(7, &c.challenge_bytes_b64, &kp);
    assert_eq!(engine.verify_response_at(&fresh, &c, kp.public_key_bytes(), at), Ok(true));
}

#[test]
fn bridge_sessions_are_encrypted() {
    let bridge = MobileLiveBridge::new(8080);
    assert_eq!(bridge.server_port(), 8080);
    let s = bridge.connect_client("phone").unwrap();
    assert_eq!(s.client_device_name, "phone");
    assert!(s.is_encrypted);
}

#[test]
fn passkey_challenge_issued_in_a_leap_second_leaves_it() {
    let engine = PasskeyEngine::new("rp");
    let c = engine.create_challenge_at("user", Timestamp { secs: 59, nanos: 1_500_000_000 }, 2).unwrap();
    assert_eq!(c.expires_at, Timestamp { secs: 359, nanos: 500_000_000 });
}

#[test]
fn passkey_challenge_outside_chrono_range_is_not_issued() {
    let engine = PasskeyEngine::new("rp");
    assert!(engine.create_challenge_at("user", Timestamp { secs: i64::MAX - 10, nanos: 0 }, 3).is_none());
    assert!(engine.create_challenge_at("user", Timestamp { secs: 58, nanos: 1_500_000_000 }, 3).is_none());
}
