use netgene::gene::crypto::{fingerprint, short_fingerprint, verify_signature, GeneKeyPair};
use netgene::gene::identity::{GeneRole, GeneStatus, NetGene};
use netgene::gene::token::{GeneToken, TokenClaims, TokenError};
use netgene::ids::Timestamp;

/// Check a token as a verifier does: signature, then claims, then expiry.
fn verify(token: &GeneToken) -> Result<TokenClaims, TokenError> {
    let json = token.verified_claims_json()?;
    let v: serde_json::Value = serde_json::from_slice(&json).expect("claims are JSON");
    let claims = TokenClaims {
        sub: uuid::Uuid::parse_str(v["sub"].as_str().unwrap()).unwrap().as_u128(),
        cap: v["cap"].as_str().unwrap().to_string(),
        iat: v["iat"].as_i64().unwrap(),
        exp: v["exp"].as_i64().unwrap(),
        jti: uuid::Uuid::parse_str(v["jti"].as_str().unwrap()).unwrap().as_u128(),
    };
    GeneToken::accept_claims(claims)
}

#[test]
fn test_keygen_and_sign() {
    let kp = GeneKeyPair::generate().unwrap();
    let msg = b"netgene-test-message";
    let sig = kp.sign(msg);
    assert!(verify_signature(kp.public_key_bytes(), msg, &sig));
    assert!(!verify_signature(kp.public_key_bytes(), b"tampered", &sig));
}

#[test]
fn test_fingerprint() {
    let fp = fingerprint(b"netgene");
    assert_eq!(fp.len(), 64);
}

#[test]
fn test_master_gene_generation() {
    let (gene, _kp) = NetGene::generate_master("Test Master").unwrap();
    assert_eq!(gene.role, GeneRole::Master);
    assert_eq!(gene.status, GeneStatus::Active);
    assert!(gene.parent_id.is_none());
    assert!(gene.has_capability("gene.create"));
}

#[test]
fn test_spawn_sub_gene() {
    let (master, master_kp) = NetGene::generate_master("Master").unwrap();
    let (sub, _kp) = NetGene::spawn_sub_gene(
        &master,
        &master_kp,
        "Node-01",
        GeneRole::Node,
        vec!["node.spawn".to_string()],
    )
    .unwrap();
    assert_eq!(sub.parent_id, Some(master.id));
    assert_eq!(sub.role, GeneRole::Node);
}

#[test]
fn test_revoke() {
    let (mut gene, _kp) = NetGene::generate_master("ToRevoke").unwrap();
    gene.revoke();
    assert_eq!(gene.status, GeneStatus::Revoked);
    assert!(!gene.is_authorized("network.admin"));
}

#[test]
fn test_issue_and_verify() {
    let kp = GeneKeyPair::generate().unwrap();
    let gene_id = uuid::Uuid::new_v4().as_u128();
    let token = GeneToken::issue(gene_id, "node.spawn", 3600, &kp).unwrap();
    let claims = verify(&token).unwrap();
    assert_eq!(claims.sub, gene_id);
    assert_eq!(claims.cap, "node.spawn");
}

#[test]
fn test_expired_token_fails() {
    let kp = GeneKeyPair::generate().unwrap();
    let gene_id = uuid::Uuid::new_v4().as_u128();
    let token = GeneToken::issue(gene_id, "network.admin", -1, &kp).unwrap();
    assert!(verify(&token).is_err());
}

#[test]
fn fingerprints_are_sha3_256_hex() {
    assert_eq!(
        fingerprint(b""),
        "a7ffc6f8bf1ed76651c14756a061d662f580ff4de43b49fa82d80a4b80f8434a"
    );
    assert_eq!(short_fingerprint(b""), "a7ffc6f8bf1ed766");
}

#[test]
fn suspended_parent_cannot_spawn() {
    let (mut master, master_kp) = NetGene::generate_master("Master").unwrap();
    master.suspend();
    assert_eq!(master.status, GeneStatus::Suspended);
    assert!(!master.is_authorized("gene.create"));
    let r = NetGene::spawn_sub_gene(&master, &master_kp, "n", GeneRole::Node, vec![]);
    assert!(r.is_err());
}

#[test]
fn token_claims_are_compact_json_in_field_order() {
    let claims = TokenClaims {
        sub: 0x0123456789abcdef0123456789abcdef,
        cap: "a\"b".to_string(),
        iat: -5,
        exp: 7,
        jti: 1,
    };
    assert_eq!(
        claims.to_json(),
        "{\"sub\":\"01234567-89ab-cdef-0123-456789abcdef\",\"cap\":\"a\\\"b\",\"iat\":-5,\"exp\":7,\"jti\":\"00000000-0000-0000-0000-000000000001\"}"
    );
}

#[test]
fn token_issued_at_a_known_instant_carries_its_expiry() {
    let kp = GeneKeyPair::generate().unwrap();
    let at = Timestamp { secs: 1_000, nanos: 5 };
    let token = GeneToken::issue_at(7, "quantum.run", at, 60, 9, &kp).unwrap();
    let json = token.verified_claims_json().unwrap();
    let text = String::from_utf8(json).unwrap();
    assert!(text.contains("\"iat\":1000,\"exp\":1060"));
    let mut forged = token.clone();
    forged.signature_b64 = "AAAA".to_string();
    assert_eq!(forged.verified_claims_json(), Err(TokenError::SignatureInvalid));
    forged.signature_b64 = "!!".to_string();
    assert_eq!(forged.verified_claims_json(), Err(TokenError::SignatureEncoding));
    assert_eq!(token.fingerprint().len(), 16);
}

#[test]
fn token_expiry_is_checked_against_the_given_instant() {
    let claims = TokenClaims { sub: 1, cap: "c".to_string(), iat: 0, exp: 10, jti: 2 };
    assert!(GeneToken::accept_claims_at(claims.clone(), 10).is_ok());
    assert_eq!(GeneToken::accept_claims_at(claims, 11).unwrap_err(), TokenError::Expired);
}

#[test]
fn token_issued_in_a_leap_second_counts_its_expiry_as_chrono_does() {
    let kp = GeneKeyPair::generate().unwrap();
    let at = Timestamp { secs: 59, nanos: 1_200_000_000 };
    let token = GeneToken::issue_at(7, "c", at, -10, 9, &kp).unwrap();
    let text = String::from_utf8(token.verified_claims_json().unwrap()).unwrap();
    assert!(text.contains("\"iat\":59,\"exp\":50"));
    let token = GeneToken::issue_at(7, "c", at, 10, 9, &kp).unwrap();
    let text = String::from_utf8(token.verified_claims_json().unwrap()).unwrap();
    assert!(text.contains("\"iat\":59,\"exp\":69"));
}

#[test]
fn gene_ids_are_version_four_uuids() {
    let (gene, _kp) = NetGene::generate_master("v4").unwrap();
    assert_eq!((gene.id >> 76) & 0xf, 4);
    assert_eq!((gene.id >> 62) & 0x3, 2);
}

#[test]
fn a_revoked_gene_stays_revoked_when_suspended() {
    let (mut gene, _kp) = NetGene::generate_master("Gone").unwrap();
    gene.suspend();
    assert_eq!(gene.status, GeneStatus::Suspended);
    gene.revoke();
    gene.suspend();
    assert_eq!(gene.status, GeneStatus::Revoked);
    assert!(!gene.is_authorized("gene.create"));
}

#[test]
fn master_gene_is_built_from_the_given_key_id_and_instant() {
    let kp = GeneKeyPair::generate().unwrap();
    let pk = kp.public_key_bytes().to_vec();
    let at = Timestamp { secs: 1_000, nanos: 3 };
    let (g, kp) = NetGene::master_gene("Root", kp, 77, at);
    assert_eq!(g.id, 77);
    assert_eq!(g.created_at, at);
    assert_eq!(g.name, "Root");
    assert_eq!(g.role, GeneRole::Master);
    assert_eq!(g.status, GeneStatus::Active);
    assert_eq!(g.description.as_deref(), Some("Master Gene for Root"));
    assert_eq!(
        g.capabilities,
        vec!["gene.create", "gene.revoke", "node.spawn", "agent.spawn", "network.admin", "quantum.run"]
    );
    assert_eq!(g.fingerprint, fingerprint(&pk));
    assert_eq!(g.short_fp, &fingerprint(&pk)[..16]);
    assert_eq!(kp.public_key_bytes(), &pk[..]);
}

#[test]
fn sub_gene_is_built_under_an_active_parent_only() {
    let parent_kp = GeneKeyPair::generate().unwrap();
    let (mut parent, parent_kp) = NetGene::master_gene("P", parent_kp, 1, Timestamp { secs: 0, nanos: 0 });
    let kp = GeneKeyPair::generate().unwrap();
    let at = Timestamp { secs: 5, nanos: 0 };
    let (g, _kp) = NetGene::sub_gene(&parent, &parent_kp, "C", GeneRole::Node, vec!["node.spawn".to_string()], kp, 9, at)
        .unwrap();
    assert_eq!(g.id, 9);
    assert_eq!(g.parent_id, Some(1));
    assert_eq!(g.role, GeneRole::Node);
    assert_eq!(g.created_at, at);
    assert!(g.description.is_none());
    assert_eq!(g.capabilities, vec!["node.spawn"]);
    parent.suspend();
    let kp = GeneKeyPair::generate().unwrap();
    assert!(matches!(
        NetGene::sub_gene(&parent, &parent_kp, "D", GeneRole::Node, vec![], kp, 10, at),
        Err(netgene::gene::identity::GeneError::ParentNotActive)
    ));
}
