//! Custom resource definitions: `GeneNode` and `QuantumRoutePolicy`.

use vstd::prelude::*;
use crate::ids::{Timestamp, now};
use crate::text::{decimal, has_sub, push_decimal, push_str, string_from_chars};

verus! {

/// `GeneNode` spec.
#[derive(Debug, Clone)]
pub struct GeneNodeSpec {
    pub gene_fingerprint: String,
    pub role: String,
    pub template: String,
    pub replicas: usize,
    pub enable_quantum: bool,
    pub enable_ebpf: bool,
}

/// `GeneNode` status.
#[derive(Debug, Clone)]
pub struct GeneNodeStatus {
    pub phase: String,
    pub active_replicas: usize,
    pub ip_address: String,
    pub last_heartbeat: Timestamp,
}

/// A `GeneNode` resource.
#[derive(Debug, Clone)]
pub struct GeneNodeCrd {
    pub api_version: String,
    pub kind: String,
    pub name: String,
    pub namespace: String,
    pub spec: GeneNodeSpec,
    pub status: GeneNodeStatus,
}

/// `QuantumRoutePolicy` spec.
#[derive(Debug, Clone)]
pub struct QuantumRoutePolicySpec {
    pub target_ingress: String,
    pub max_latency_ms: u32,
    pub qaoa_layers: usize,
    pub auto_remediate: bool,
}

pub open spec fn bool_text(b: bool) -> Seq<char> {
    if b {
        "true"@
    } else {
        "false"@
    }
}

fn push_bool(out: &mut Vec<char>, b: bool)
    ensures
        final(out)@ == old(out)@ + bool_text(b),
{
    if b {
        push_str(out, "true");
    } else {
        push_str(out, "false");
    }
}

/// The YAML manifest of a resource.
pub open spec fn manifest_text(c: GeneNodeCrd) -> Seq<char> {
    "apiVersion: netgene.io/v1alpha1\nkind: GeneNode\nmetadata:\n  name: "@ + c.name@
        + "\n  namespace: "@ + c.namespace@ + "\nspec:\n  geneFingerprint: \""@
        + c.spec.gene_fingerprint@ + "\"\n  role: \""@ + c.spec.role@ + "\"\n  template: \""@
        + c.spec.template@ + "\"\n  replicas: "@ + decimal(c.spec.replicas as nat)
        + "\n  enableQuantum: "@ + bool_text(c.spec.enable_quantum) + "\n  enableEbpf: "@
        + bool_text(c.spec.enable_ebpf) + "\nstatus:\n  phase: \""@ + c.status.phase@
        + "\"\n  activeReplicas: "@ + decimal(c.status.active_replicas as nat)
        + "\n  ipAddress: \""@ + c.status.ip_address@ + "\"\n"@
}

/// `c` is the demonstration resource named `name` in `namespace`.
pub open spec fn demo_resource(c: GeneNodeCrd, name: Seq<char>, namespace: Seq<char>) -> bool {
    &&& c.api_version@ == "netgene.io/v1alpha1"@
    &&& c.kind@ == "GeneNode"@
    &&& c.name@ == name
    &&& c.namespace@ == namespace
    &&& c.spec.gene_fingerprint@ == "fp-k8s-master-01"@
    &&& c.spec.role@ == "EDGE_ROUTER"@
    &&& c.spec.template@ == "quantum-edge"@
    &&& c.spec.replicas == 3
    &&& c.spec.enable_quantum
    &&& c.spec.enable_ebpf
    &&& c.status.phase@ == "Running"@
    &&& c.status.active_replicas == 3
    &&& c.status.ip_address@ == "10.244.0.15"@
}

impl GeneNodeCrd {
    /// A demonstration resource: an edge router of three running replicas,
    /// last heard from now; `None` where the clock fails.
    pub fn new_demo(name: &str, namespace: &str) -> (r: Option<Self>)
        ensures
            r matches Some(c) ==> demo_resource(c, name@, namespace@),
    {
        match now() {
            Some(at) => Some(GeneNodeCrd::new_demo_at(name, namespace, at)),
            None => None,
        }
    }

    /// The demonstration resource, last heard from at `at`.
    pub fn new_demo_at(name: &str, namespace: &str, at: Timestamp) -> (c: Self)
        ensures
            demo_resource(c, name@, namespace@),
            c.status.last_heartbeat == at,
    {
        let c = GeneNodeCrd {
            api_version: "netgene.io/v1alpha1".to_string(),
            kind: "GeneNode".to_string(),
            name: name.to_string(),
            namespace: namespace.to_string(),
            spec: GeneNodeSpec {
                gene_fingerprint: "fp-k8s-master-01".to_string(),
                role: "EDGE_ROUTER".to_string(),
                template: "quantum-edge".to_string(),
                replicas: 3,
                enable_quantum: true,
                enable_ebpf: true,
            },
            status: GeneNodeStatus {
                phase: "Running".to_string(),
                active_replicas: 3,
                ip_address: "10.244.0.15".to_string(),
                last_heartbeat: at,
            },
        };
        c
    }

    /// The YAML manifest of this resource.
    pub fn to_yaml_manifest(&self) -> (r: String)
        ensures
            r@ == manifest_text(*self),
    {
        let mut v: Vec<char> = Vec::new();
        push_str(&mut v, "apiVersion: netgene.io/v1alpha1\nkind: GeneNode\nmetadata:\n  name: ");
        push_str(&mut v, self.name.as_str());
        push_str(&mut v, "\n  namespace: ");
        push_str(&mut v, self.namespace.as_str());
        push_str(&mut v, "\nspec:\n  geneFingerprint: \"");
        push_str(&mut v, self.spec.gene_fingerprint.as_str());
        push_str(&mut v, "\"\n  role: \"");
        push_str(&mut v, self.spec.role.as_str());
        push_str(&mut v, "\"\n  template: \"");
        push_str(&mut v, self.spec.template.as_str());
        push_str(&mut v, "\"\n  replicas: ");
        push_decimal(&mut v, self.spec.replicas as u64);
        push_str(&mut v, "\n  enableQuantum: ");
        push_bool(&mut v, self.spec.enable_quantum);
        push_str(&mut v, "\n  enableEbpf: ");
        push_bool(&mut v, self.spec.enable_ebpf);
        push_str(&mut v, "\nstatus:\n  phase: \"");
        push_str(&mut v, self.status.phase.as_str());
        push_str(&mut v, "\"\n  activeReplicas: ");
        push_decimal(&mut v, self.status.active_replicas as u64);
        push_str(&mut v, "\n  ipAddress: \"");
        push_str(&mut v, self.status.ip_address.as_str());
        push_str(&mut v, "\"\n");
        string_from_chars(v.as_slice())
    }
}

/// Text `t` placed between `x` and `y` occurs in the whole.
proof fn lemma_occurs_between(x: Seq<char>, t: Seq<char>, y: Seq<char>)
    ensures
        has_sub(x + t + y, t),
{
    assert((x + t + y).subrange(x.len() as int, (x.len() + t.len()) as int) =~= t);
}

/// The pieces of the manifest that follow the `template` value.
spec fn manifest_tail(c: GeneNodeCrd) -> Seq<char> {
    bool_text(c.spec.enable_quantum) + "\n  enableEbpf: "@ + bool_text(c.spec.enable_ebpf)
        + "\nstatus:\n  phase: \""@ + c.status.phase@ + "\"\n  activeReplicas: "@ + decimal(
        c.status.active_replicas as nat) + "\n  ipAddress: \""@ + c.status.ip_address@ + "\"\n"@
}

proof fn lemma_manifest_metadata(c: GeneNodeCrd)
    ensures
        has_sub(manifest_text(c), "apiVersion: netgene.io/v1alpha1\nkind: GeneNode\nmetadata:\n  name: "@
            + c.name@ + "\n  namespace: "@ + c.namespace@ + "\nspec:\n  geneFingerprint: \""@),
{
    let t = "apiVersion: netgene.io/v1alpha1\nkind: GeneNode\nmetadata:\n  name: "@ + c.name@
        + "\n  namespace: "@ + c.namespace@ + "\nspec:\n  geneFingerprint: \""@;
    let y = c.spec.gene_fingerprint@ + "\"\n  role: \""@ + c.spec.role@ + "\"\n  template: \""@
        + c.spec.template@ + "\"\n  replicas: "@ + decimal(c.spec.replicas as nat) + "\n  enableQuantum: "@
        + manifest_tail(c);
    assert(manifest_text(c) =~= t + y);
    assert((t + y).subrange(0, 0 + t.len() as int) =~= t);
    assert(has_sub(t + y, t));
}

proof fn lemma_manifest_spec_replicas(c: GeneNodeCrd)
    ensures
        has_sub(manifest_text(c), "\"\n  replicas: "@ + decimal(c.spec.replicas as nat) + "\n  enableQuantum: "@),
{
    let t = "\"\n  replicas: "@ + decimal(c.spec.replicas as nat) + "\n  enableQuantum: "@;
    let x = "apiVersion: netgene.io/v1alpha1\nkind: GeneNode\nmetadata:\n  name: "@ + c.name@
        + "\n  namespace: "@ + c.namespace@ + "\nspec:\n  geneFingerprint: \""@ + c.spec.gene_fingerprint@
        + "\"\n  role: \""@ + c.spec.role@ + "\"\n  template: \""@ + c.spec.template@;
    assert(manifest_text(c) =~= x + t + manifest_tail(c));
    lemma_occurs_between(x, t, manifest_tail(c));
}

proof fn lemma_manifest_status(c: GeneNodeCrd)
    ensures
        has_sub(manifest_text(c), "\nstatus:\n  phase: \""@ + c.status.phase@ + "\"\n  activeReplicas: "@
            + decimal(c.status.active_replicas as nat) + "\n  ipAddress: \""@),
{
    let t = "\nstatus:\n  phase: \""@ + c.status.phase@ + "\"\n  activeReplicas: "@ + decimal(
        c.status.active_replicas as nat) + "\n  ipAddress: \""@;
    let x = "apiVersion: netgene.io/v1alpha1\nkind: GeneNode\nmetadata:\n  name: "@ + c.name@
        + "\n  namespace: "@ + c.namespace@ + "\nspec:\n  geneFingerprint: \""@ + c.spec.gene_fingerprint@
        + "\"\n  role: \""@ + c.spec.role@ + "\"\n  template: \""@ + c.spec.template@
        + "\"\n  replicas: "@ + decimal(c.spec.replicas as nat) + "\n  enableQuantum: "@ + bool_text(
        c.spec.enable_quantum) + "\n  enableEbpf: "@ + bool_text(c.spec.enable_ebpf);
    let y = c.status.ip_address@ + "\"\n"@;
    assert(manifest_text(c) =~= x + t + y);
    lemma_occurs_between(x, t, y);
}

/// The manifest states the resource as it is: it opens with its name and
/// namespace under `metadata`; the `replicas` line of the spec carries the
/// replicas the spec asks for; the `status` section carries the status's
/// phase and active replicas.
pub proof fn lemma_manifest_carries_the_resource(c: GeneNodeCrd)
    ensures
        has_sub(manifest_text(c), "apiVersion: netgene.io/v1alpha1\nkind: GeneNode\nmetadata:\n  name: "@
            + c.name@ + "\n  namespace: "@ + c.namespace@ + "\nspec:\n  geneFingerprint: \""@),
        has_sub(manifest_text(c), "\"\n  replicas: "@ + decimal(c.spec.replicas as nat) + "\n  enableQuantum: "@),
        has_sub(manifest_text(c), "\nstatus:\n  phase: \""@ + c.status.phase@ + "\"\n  activeReplicas: "@
            + decimal(c.status.active_replicas as nat) + "\n  ipAddress: \""@),
{
    lemma_manifest_metadata(c);
    lemma_manifest_spec_replicas(c);
    lemma_manifest_status(c);
}

} // verus!
