//! Reconciliation of `GeneNode` resources.

use vstd::prelude::*;
use crate::k8s::crd::GeneNodeCrd;
use crate::text::{decimal, push_decimal, push_str, string_from_chars};

verus! {

/// The controller for one namespace. Whether a cluster API connection was
/// established is recorded; the connection itself lives in the
/// application layer.
pub struct K8sController {
    namespace: String,
    cluster_connected: bool,
}

/// The message a reconciliation reports.
pub open spec fn reconcile_message(name: Seq<char>, active: usize) -> Seq<char> {
    "Reconciled GeneNode '"@ + name + "': "@ + decimal(active as nat) + " replicas active"@
}

/// `b` is `a` reconciled: too few active replicas are scaled up to the
/// requested number and the phase becomes `Running`; a resource with
/// enough replicas is left as it is; nothing else changes.
pub open spec fn reconcile_step(a: GeneNodeCrd, b: GeneNodeCrd) -> bool {
    &&& a.status.active_replicas < a.spec.replicas ==> b.status.active_replicas == a.spec.replicas
        && b.status.phase@ == "Running"@
    &&& a.status.active_replicas >= a.spec.replicas ==> b.status.active_replicas == a.status.active_replicas
        && b.status.phase == a.status.phase
    &&& b.spec == a.spec
    &&& b.name == a.name
    &&& b.namespace == a.namespace
    &&& b.api_version == a.api_version
    &&& b.kind == a.kind
    &&& b.status.ip_address == a.status.ip_address
    &&& b.status.last_heartbeat == a.status.last_heartbeat
}

/// Reconciling is idempotent: a second pass changes no replica count or
/// phase, and afterwards at least the requested replicas are active.
pub proof fn lemma_reconcile_idempotent(a: GeneNodeCrd, b: GeneNodeCrd, c: GeneNodeCrd)
    requires
        reconcile_step(a, b),
        reconcile_step(b, c),
    ensures
        b.status.active_replicas >= b.spec.replicas,
        c.status.active_replicas == b.status.active_replicas,
        c.status.phase == b.status.phase,
{
}

/// Reconciling brings a resource up to its spec: afterwards at least the
/// requested replicas are active; a resource with too few is scaled to
/// exactly the requested number and marked `Running`; one with enough is
/// left as it was; the spec itself is never changed.
pub proof fn lemma_reconcile_reaches_the_spec(a: GeneNodeCrd, b: GeneNodeCrd)
    requires
        reconcile_step(a, b),
    ensures
        b.status.active_replicas >= a.spec.replicas,
        b.spec == a.spec,
        a.status.active_replicas < a.spec.replicas ==> b.status.active_replicas == a.spec.replicas
            && b.status.phase@ == "Running"@,
        a.status.active_replicas >= a.spec.replicas ==> b.status == a.status,
{
}

impl K8sController {
    pub closed spec fn namespace_text(&self) -> Seq<char> {
        self.namespace@
    }

    pub closed spec fn connected(&self) -> bool {
        self.cluster_connected
    }

    pub fn new(namespace: &str, cluster_connected: bool) -> (c: Self)
        ensures
            c.namespace_text() == namespace@,
            c.connected() == cluster_connected,
    {
        K8sController { namespace: namespace.to_string(), cluster_connected }
    }

    /// Bring the resource's status up to its spec: too few active replicas
    /// are scaled up to the requested number and the phase becomes
    /// `Running`; a resource with enough replicas is left as it is.
    pub fn reconcile(&self, crd: &mut GeneNodeCrd) -> (r: String)
        ensures
            reconcile_step(*old(crd), *final(crd)),
            r@ == reconcile_message(old(crd).name@, final(crd).status.active_replicas),
    {
        if crd.status.active_replicas < crd.spec.replicas {
            crd.status.active_replicas = crd.spec.replicas;
            crd.status.phase = "Running".to_string();
        }
        let mut v: Vec<char> = Vec::new();
        push_str(&mut v, "Reconciled GeneNode '");
        push_str(&mut v, crd.name.as_str());
        push_str(&mut v, "': ");
        push_decimal(&mut v, crd.status.active_replicas as u64);
        push_str(&mut v, " replicas active");
        string_from_chars(v.as_slice())
    }

    pub fn namespace(&self) -> (r: &str)
        ensures
            r@ == self.namespace_text(),
    {
        self.namespace.as_str()
    }

    pub fn cluster_connected(&self) -> (r: bool)
        ensures
            r == self.connected(),
    {
        self.cluster_connected
    }
}

} // verus!
