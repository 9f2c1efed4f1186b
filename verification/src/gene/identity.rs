//! The NetGene identity: key material, role, lifecycle status and lineage.

use vstd::prelude::*;
use crate::gene::crypto::{
    CryptoError, GeneKeyPair, base64_text, ed25519_public_key_of, ed25519_pkcs8_accepted,
    fingerprint, fingerprint_text, short_fingerprint,
};
use crate::ids::{Timestamp, fresh_stamp, push_uuid, uuid_text, uuid_version};
use crate::text::{push_str, str_eq, string_from_chars, texts};

verus! {

/// Role of a NetGene in the hierarchy.
#[derive(Debug, Clone, PartialEq, Eq)]
pub enum GeneRole {
    /// Root identity: system owner, full authority.
    Master,
    /// An autonomous network node.
    Node,
    /// An AI agent in the Netsphere Kernel.
    Agent,
    /// Read-only monitoring access.
    Observer,
    /// Custom role with a label.
    Custom(String),
}

/// Lifecycle status of a gene.
#[derive(Debug, Clone, Copy, PartialEq, Eq, Structural)]
pub enum GeneStatus {
    Active,
    Suspended,
    Revoked,
    Pending,
}

/// Key algorithm (classical or post-quantum).
#[derive(Debug, Clone, Copy, PartialEq, Eq, Structural)]
pub enum CryptoAlgorithm {
    Ed25519,
    MlKem768,
    MlDsa65,
}

/// Errors of the Gene layer's logic.
#[derive(Debug, Clone, PartialEq, Eq)]
pub enum GeneError {
    ParentNotActive,
    NotFound { id: String },
    Revoked,
    InsufficientCapability { required: String },
    TokenVerificationFailed { reason: String },
    Crypto(CryptoError),
    /// The random source or the clock failed.
    Unavailable,
}

pub open spec fn role_text(r: GeneRole) -> Seq<char> {
    match r {
        GeneRole::Master => "MASTER"@,
        GeneRole::Node => "NODE"@,
        GeneRole::Agent => "AGENT"@,
        GeneRole::Observer => "OBSERVER"@,
        GeneRole::Custom(s) => "CUSTOM:"@ + s@,
    }
}

pub open spec fn status_text(s: GeneStatus) -> Seq<char> {
    match s {
        GeneStatus::Active => "ACTIVE"@,
        GeneStatus::Suspended => "SUSPENDED"@,
        GeneStatus::Revoked => "REVOKED"@,
        GeneStatus::Pending => "PENDING"@,
    }
}

pub open spec fn algorithm_text(a: CryptoAlgorithm) -> Seq<char> {
    match a {
        CryptoAlgorithm::Ed25519 => "Ed25519"@,
        CryptoAlgorithm::MlKem768 => "ML-KEM-768 (Kyber PQC)"@,
        CryptoAlgorithm::MlDsa65 => "ML-DSA-65 (Dilithium PQC)"@,
    }
}

impl GeneRole {
    fn push_text(&self, out: &mut Vec<char>)
        ensures
            final(out)@ == old(out)@ + role_text(*self),
    {
        match self {
            GeneRole::Master => push_str(out, "MASTER"),
            GeneRole::Node => push_str(out, "NODE"),
            GeneRole::Agent => push_str(out, "AGENT"),
            GeneRole::Observer => push_str(out, "OBSERVER"),
            GeneRole::Custom(s) => {
                push_str(out, "CUSTOM:");
                push_str(out, s.as_str());
                assert(old(out)@ + "CUSTOM:"@ + s@ =~= old(out)@ + ("CUSTOM:"@ + s@));
            },
        }
    }

    /// The display text: `MASTER`, `NODE`, `AGENT`, `OBSERVER` or `CUSTOM:<label>`.
    pub fn to_text(&self) -> (r: String)
        ensures
            r@ == role_text(*self),
    {
        let mut v: Vec<char> = Vec::new();
        self.push_text(&mut v);
        assert(v@ =~= role_text(*self));
        string_from_chars(v.as_slice())
    }

    /// The role a command line names: `agent`, `observer`, anything else a node.
    pub fn from_cli_name(name: &str) -> (r: GeneRole)
        ensures
            name@ == "agent"@ ==> r == GeneRole::Agent,
            name@ == "observer"@ ==> r == GeneRole::Observer,
            name@ != "agent"@ && name@ != "observer"@ ==> r == GeneRole::Node,
    {
        proof {
            reveal_strlit("agent");
            reveal_strlit("observer");
            assert("agent"@.len() != "observer"@.len());
        }
        if str_eq(name, "agent") {
            GeneRole::Agent
        } else if str_eq(name, "observer") {
            GeneRole::Observer
        } else {
            GeneRole::Node
        }
    }

    /// The capabilities a sub-gene of this role gets when spawned from the
    /// command line.
    pub fn default_capabilities(&self) -> (r: Vec<String>)
        ensures
            texts(r@) == match *self {
                GeneRole::Node => seq!["node.spawn"@, "network.read"@],
                GeneRole::Agent => seq!["agent.run"@, "network.read"@],
                GeneRole::Observer => seq!["network.read"@],
                _ => Seq::empty(),
            },
    {
        let mut v: Vec<String> = Vec::new();
        match self {
            GeneRole::Node => {
                v.push("node.spawn".to_string());
                v.push("network.read".to_string());
            },
            GeneRole::Agent => {
                v.push("agent.run".to_string());
                v.push("network.read".to_string());
            },
            GeneRole::Observer => {
                v.push("network.read".to_string());
            },
            _ => {},
        }
        assert(texts(v@) =~= match *self {
            GeneRole::Node => seq!["node.spawn"@, "network.read"@],
            GeneRole::Agent => seq!["agent.run"@, "network.read"@],
            GeneRole::Observer => seq!["network.read"@],
            _ => Seq::empty(),
        });
        v
    }
}

impl GeneStatus {
    fn push_text(&self, out: &mut Vec<char>)
        ensures
            final(out)@ == old(out)@ + status_text(*self),
    {
        match self {
            GeneStatus::Active => push_str(out, "ACTIVE"),
            GeneStatus::Suspended => push_str(out, "SUSPENDED"),
            GeneStatus::Revoked => push_str(out, "REVOKED"),
            GeneStatus::Pending => push_str(out, "PENDING"),
        }
    }

    /// The display text: `ACTIVE`, `SUSPENDED`, `REVOKED` or `PENDING`.
    pub fn to_text(&self) -> (r: String)
        ensures
            r@ == status_text(*self),
    {
        let mut v: Vec<char> = Vec::new();
        self.push_text(&mut v);
        assert(v@ =~= status_text(*self));
        string_from_chars(v.as_slice())
    }
}

impl CryptoAlgorithm {
    /// The display text of the algorithm.
    pub fn to_text(&self) -> (r: String)
        ensures
            r@ == algorithm_text(*self),
    {
        match self {
            CryptoAlgorithm::Ed25519 => "Ed25519".to_string(),
            CryptoAlgorithm::MlKem768 => "ML-KEM-768 (Kyber PQC)".to_string(),
            CryptoAlgorithm::MlDsa65 => "ML-DSA-65 (Dilithium PQC)".to_string(),
        }
    }
}

/// The text an error displays.
pub open spec fn gene_error_text(e: GeneError) -> Seq<char> {
    match e {
        GeneError::ParentNotActive => "Parent gene is not active \u{2014} cannot spawn sub-genes"@,
        GeneError::NotFound { id } => "Gene not found: "@ + id@,
        GeneError::Revoked => "Gene is revoked and cannot be used"@,
        GeneError::InsufficientCapability { required } => "Insufficient capability: required '"@ + required@ + "'"@,
        GeneError::TokenVerificationFailed { reason } => "Token verification failed: "@ + reason@,
        GeneError::Crypto(c) => crate::gene::crypto::crypto_error_text(c),
        GeneError::Unavailable => "Random source or clock unavailable"@,
    }
}

impl GeneError {
    /// The error's message.
    pub fn message(&self) -> (r: String)
        ensures
            r@ == gene_error_text(*self),
    {
        let mut v: Vec<char> = Vec::new();
        match self {
            GeneError::ParentNotActive => push_str(
                &mut v,
                "Parent gene is not active \u{2014} cannot spawn sub-genes",
            ),
            GeneError::NotFound { id } => {
                push_str(&mut v, "Gene not found: ");
                push_str(&mut v, id.as_str());
            },
            GeneError::Revoked => push_str(&mut v, "Gene is revoked and cannot be used"),
            GeneError::InsufficientCapability { required } => {
                push_str(&mut v, "Insufficient capability: required '");
                push_str(&mut v, required.as_str());
                push_str(&mut v, "'");
            },
            GeneError::TokenVerificationFailed { reason } => {
                push_str(&mut v, "Token verification failed: ");
                push_str(&mut v, reason.as_str());
            },
            GeneError::Crypto(e) => {
                let m = e.message();
                push_str(&mut v, m.as_str());
            },
            GeneError::Unavailable => push_str(&mut v, "Random source or clock unavailable"),
        }
        proof {
            match self {
                GeneError::InsufficientCapability { required } => {
                    assert(v@ =~= gene_error_text(*self));
                },
                _ => {},
            }
        }
        string_from_chars(v.as_slice())
    }
}


/// The capabilities of a master gene.
pub open spec fn master_capabilities() -> Seq<Seq<char>> {
    seq![
        "gene.create"@,
        "gene.revoke"@,
        "node.spawn"@,
        "agent.spawn"@,
        "network.admin"@,
        "quantum.run"@,
    ]
}

/// The core identity unit: metadata and the public key. The private key is
/// held apart, in a `GeneKeyPair`.
#[derive(Debug, Clone)]
pub struct NetGene {
    pub id: u128,
    pub name: String,
    pub role: GeneRole,
    pub status: GeneStatus,
    pub algorithm: CryptoAlgorithm,
    /// Public key, base64.
    pub public_key_b64: String,
    /// SHA3-256 fingerprint of the public key, hex.
    pub fingerprint: String,
    /// The first 16 hex characters of the fingerprint.
    pub short_fp: String,
    pub parent_id: Option<u128>,
    pub created_at: Timestamp,
    pub description: Option<String>,
    pub capabilities: Vec<String>,
}

/// `g` carries the key material of `kp`: its public key in base64 and its
/// fingerprints.
pub open spec fn keyed_by(g: NetGene, kp: GeneKeyPair) -> bool {
    &&& ed25519_pkcs8_accepted(kp.pkcs8_view())
    &&& kp.public_key_view() == ed25519_public_key_of(kp.pkcs8_view())
    &&& g.public_key_b64@ == base64_text(kp.public_key_view())
    &&& g.fingerprint@ == fingerprint_text(kp.public_key_view())
    &&& g.short_fp@ == fingerprint_text(kp.public_key_view()).take(16)
    &&& g.algorithm == CryptoAlgorithm::Ed25519
}

/// `g`, handed back with `kp`, is the master gene named `name` with ID `id`
/// created at `at`: active, with no parent, described as its master, with
/// the master capabilities, and carrying the key material of `kp`.
pub open spec fn master_gene_of(g: NetGene, kp: GeneKeyPair, name: Seq<char>, id: u128, at: Timestamp) -> bool {
    &&& keyed_by(g, kp)
    &&& g.id == id
    &&& g.created_at == at
    &&& g.name@ == name
    &&& g.role == GeneRole::Master
    &&& g.status == GeneStatus::Active
    &&& g.parent_id is None
    &&& g.description matches Some(d) && d@ == "Master Gene for "@ + name
    &&& texts(g.capabilities@) == master_capabilities()
}

/// `g`, handed back with `kp`, is the sub-gene of `parent` named `name`
/// with this role and these capabilities, ID `id`, created at `at`: active,
/// with no description, and carrying the key material of `kp`.
pub open spec fn sub_gene_of(
    g: NetGene,
    kp: GeneKeyPair,
    parent: NetGene,
    name: Seq<char>,
    role: GeneRole,
    capabilities: Seq<String>,
    id: u128,
    at: Timestamp,
) -> bool {
    &&& keyed_by(g, kp)
    &&& g.id == id
    &&& g.created_at == at
    &&& g.name@ == name
    &&& g.role == role
    &&& g.status == GeneStatus::Active
    &&& g.parent_id == Some(parent.id)
    &&& g.description is None
    &&& g.capabilities@ == capabilities
}

/// `b` is `a` with only its status changed, to `s`.
pub open spec fn with_status(a: NetGene, b: NetGene, s: GeneStatus) -> bool {
    &&& b.status == s
    &&& b.id == a.id
    &&& b.name == a.name
    &&& b.role == a.role
    &&& b.algorithm == a.algorithm
    &&& b.public_key_b64 == a.public_key_b64
    &&& b.fingerprint == a.fingerprint
    &&& b.short_fp == a.short_fp
    &&& b.parent_id == a.parent_id
    &&& b.created_at == a.created_at
    &&& b.description == a.description
    &&& b.capabilities == a.capabilities
}

impl NetGene {
    /// The gene lists capability `cap`.
    pub open spec fn has_cap(&self, cap: Seq<char>) -> bool {
        exists|i: int| 0 <= i < self.capabilities@.len() && #[trigger] self.capabilities@[i]@ == cap
    }

    /// Generate a new master gene (root identity): a fresh key pair, a
    /// fresh version-4 ID, created now (see `master_gene`).
    pub fn generate_master(name: &str) -> (r: Result<(NetGene, GeneKeyPair), GeneError>)
        ensures
            match r {
                Ok((g, kp)) => {
                    &&& master_gene_of(g, kp, name@, g.id, g.created_at)
                    &&& uuid_version(g.id) == 4
                },
                Err(e) => e == GeneError::Crypto(CryptoError::KeyGeneration) || e
                    == GeneError::Crypto(CryptoError::Pkcs8Parse) || e == GeneError::Unavailable,
            },
    {
        let kp = match GeneKeyPair::generate() {
            Ok(k) => k,
            Err(e) => return Err(GeneError::Crypto(e)),
        };
        let stamp = match fresh_stamp() {
            Some(s) => s,
            None => return Err(GeneError::Unavailable),
        };
        Ok(NetGene::master_gene(name, kp, stamp.id, stamp.at))
    }

    /// The master gene named `name` with ID `id`, created at `at`, holding
    /// the public key of `kp`; `kp` is handed back with it.
    pub fn master_gene(name: &str, kp: GeneKeyPair, id: u128, at: Timestamp) -> (r: (NetGene, GeneKeyPair))
        ensures
            master_gene_of(r.0, r.1, name@, id, at),
            r.1.pkcs8_view() == kp.pkcs8_view(),
            r.1.public_key_view() == kp.public_key_view(),
    {
        proof {
            use_type_invariant(&kp);
        }
        let pk_b64 = kp.public_key_b64();
        let fp = fingerprint(kp.public_key_bytes());
        let sfp = short_fingerprint(kp.public_key_bytes());
        let mut d: Vec<char> = Vec::new();
        push_str(&mut d, "Master Gene for ");
        push_str(&mut d, name);
        let mut caps: Vec<String> = Vec::new();
        caps.push("gene.create".to_string());
        caps.push("gene.revoke".to_string());
        caps.push("node.spawn".to_string());
        caps.push("agent.spawn".to_string());
        caps.push("network.admin".to_string());
        caps.push("quantum.run".to_string());
        assert(texts(caps@) =~= master_capabilities());
        let gene = NetGene {
            id,
            name: name.to_string(),
            role: GeneRole::Master,
            status: GeneStatus::Active,
            algorithm: CryptoAlgorithm::Ed25519,
            public_key_b64: pk_b64,
            fingerprint: fp,
            short_fp: sfp,
            parent_id: None,
            created_at: at,
            description: Some(string_from_chars(d.as_slice())),
            capabilities: caps,
        };
        (gene, kp)
    }

    /// Spawn a sub-gene (delegated identity) under an active parent, which
    /// signs the new public key to establish lineage: a fresh key pair, a
    /// fresh version-4 ID, created now (see `sub_gene`).
    pub fn spawn_sub_gene(
        parent: &NetGene,
        parent_kp: &GeneKeyPair,
        name: &str,
        role: GeneRole,
        capabilities: Vec<String>,
    ) -> (r: Result<(NetGene, GeneKeyPair), GeneError>)
        ensures
            parent.status != GeneStatus::Active ==> r == Err::<(NetGene, GeneKeyPair), GeneError>(
                GeneError::ParentNotActive,
            ),
            match r {
                Ok((g, kp)) => {
                    &&& parent.status == GeneStatus::Active
                    &&& sub_gene_of(g, kp, *parent, name@, role, capabilities@, g.id, g.created_at)
                    &&& uuid_version(g.id) == 4
                },
                Err(e) => e == GeneError::ParentNotActive || e == GeneError::Crypto(
                    CryptoError::KeyGeneration,
                ) || e == GeneError::Crypto(CryptoError::Pkcs8Parse) || e == GeneError::Unavailable,
            },
    {
        if parent.status != GeneStatus::Active {
            return Err(GeneError::ParentNotActive);
        }
        let kp = match GeneKeyPair::generate() {
            Ok(k) => k,
            Err(e) => return Err(GeneError::Crypto(e)),
        };
        let stamp = match fresh_stamp() {
            Some(s) => s,
            None => return Err(GeneError::Unavailable),
        };
        NetGene::sub_gene(parent, parent_kp, name, role, capabilities, kp, stamp.id, stamp.at)
    }

    /// The sub-gene of an active `parent` named `name`, with this role and
    /// these capabilities, ID `id`, created at `at`, holding the public key
    /// of `kp` (which the parent signs); `kp` is handed back with it. A
    /// parent that is not active spawns nothing.
    pub fn sub_gene(
        parent: &NetGene,
        parent_kp: &GeneKeyPair,
        name: &str,
        role: GeneRole,
        capabilities: Vec<String>,
        kp: GeneKeyPair,
        id: u128,
        at: Timestamp,
    ) -> (r: Result<(NetGene, GeneKeyPair), GeneError>)
        ensures
            parent.status != GeneStatus::Active ==> r == Err::<(NetGene, GeneKeyPair), GeneError>(
                GeneError::ParentNotActive,
            ),
            parent.status == GeneStatus::Active ==> (r matches Ok((g, k)) && sub_gene_of(
                g,
                k,
                *parent,
                name@,
                role,
                capabilities@,
                id,
                at,
            ) && k.pkcs8_view() == kp.pkcs8_view() && k.public_key_view() == kp.public_key_view()),
    {
        if parent.status != GeneStatus::Active {
            return Err(GeneError::ParentNotActive);
        }
        proof {
            use_type_invariant(&kp);
        }
        let pk_b64 = kp.public_key_b64();
        let fp = fingerprint(kp.public_key_bytes());
        let sfp = short_fingerprint(kp.public_key_bytes());
        let _lineage_sig = parent_kp.sign(kp.public_key_bytes());
        let gene = NetGene {
            id,
            name: name.to_string(),
            role,
            status: GeneStatus::Active,
            algorithm: CryptoAlgorithm::Ed25519,
            public_key_b64: pk_b64,
            fingerprint: fp,
            short_fp: sfp,
            parent_id: Some(parent.id),
            created_at: at,
            description: None,
            capabilities,
        };
        Ok((gene, kp))
    }

    /// Suspend this gene (reversible). A revoked gene stays revoked:
    /// revocation cannot be undone.
    pub fn suspend(&mut self)
        ensures
            old(self).status == GeneStatus::Revoked ==> *final(self) == *old(self),
            old(self).status != GeneStatus::Revoked ==> with_status(
                *old(self),
                *final(self),
                GeneStatus::Suspended,
            ),
    {
        if self.status != GeneStatus::Revoked {
            self.status = GeneStatus::Suspended;
        }
    }

    /// Revoke this gene (irreversible: nothing sets another status on a
    /// revoked gene).
    pub fn revoke(&mut self)
        ensures
            with_status(*old(self), *final(self), GeneStatus::Revoked),
    {
        self.status = GeneStatus::Revoked;
    }

    /// Whether this gene lists capability `cap`.
    pub fn has_capability(&self, cap: &str) -> (r: bool)
        ensures
            r == self.has_cap(cap@),
    {
        let n = self.capabilities.len();
        let mut i: usize = 0;
        while i < n
            invariant
                n == self.capabilities@.len(),
                i <= n,
                forall|j: int| 0 <= j < i ==> #[trigger] self.capabilities@[j]@ != cap@,
            decreases n - i,
        {
            if str_eq(self.capabilities[i].as_str(), cap) {
                return true;
            }
            i = i + 1;
        }
        false
    }

    /// Active and holding capability `cap`.
    pub fn is_authorized(&self, cap: &str) -> (r: bool)
        ensures
            r == (self.status == GeneStatus::Active && self.has_cap(cap@)),
    {
        self.status == GeneStatus::Active && self.has_capability(cap)
    }

    /// `[ROLE] name | id | STATUS | fp:short`, for terminal output.
    pub fn display_line(&self) -> (r: String)
        ensures
            r@ == "["@ + role_text(self.role) + "] "@ + self.name@ + " | "@ + uuid_text(self.id)
                + " | "@ + status_text(self.status) + " | fp:"@ + self.short_fp@,
    {
        let mut v: Vec<char> = Vec::new();
        push_str(&mut v, "[");
        self.role.push_text(&mut v);
        push_str(&mut v, "] ");
        push_str(&mut v, self.name.as_str());
        push_str(&mut v, " | ");
        push_uuid(&mut v, self.id);
        push_str(&mut v, " | ");
        self.status.push_text(&mut v);
        push_str(&mut v, " | fp:");
        push_str(&mut v, self.short_fp.as_str());
        string_from_chars(v.as_slice())
    }
}

/// A master gene is the active root of its lineage and holds every master
/// capability: creating and revoking genes, spawning nodes and agents,
/// administering the network and running quantum jobs; it is authorized
/// for each of them.
pub proof fn lemma_master_holds_every_capability(g: NetGene, kp: GeneKeyPair, name: Seq<char>, id: u128, at: Timestamp)
    requires
        master_gene_of(g, kp, name, id, at),
    ensures
        g.status == GeneStatus::Active,
        g.role == GeneRole::Master,
        g.parent_id is None,
        g.has_cap("gene.create"@),
        g.has_cap("gene.revoke"@),
        g.has_cap("node.spawn"@),
        g.has_cap("agent.spawn"@),
        g.has_cap("network.admin"@),
        g.has_cap("quantum.run"@),
        g.capabilities@.len() == 6,
{
    let c = g.capabilities@;
    assert(texts(c).len() == 6);
    assert forall|i: int| 0 <= i < 6 implies #[trigger] c[i]@ == master_capabilities()[i] by {
        assert(texts(c)[i] == c[i]@);
    }
    assert(c[0]@ == "gene.create"@);
    assert(c[1]@ == "gene.revoke"@);
    assert(c[2]@ == "node.spawn"@);
    assert(c[3]@ == "agent.spawn"@);
    assert(c[4]@ == "network.admin"@);
    assert(c[5]@ == "quantum.run"@);
}

} // verus!
