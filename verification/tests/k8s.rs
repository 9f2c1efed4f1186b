use netgene::k8s::controller::K8sController;
use netgene::k8s::crd::GeneNodeCrd;

#[test]
fn test_crd_manifest_generation() {
    let crd = GeneNodeCrd::new_demo("gene-node-01", "default").unwrap();
    let manifest = crd.to_yaml_manifest();
    assert!(manifest.contains("kind: GeneNode"));
    assert!(manifest.contains("name: gene-node-01"));
}

#[test]
fn manifest_lists_every_field() {
    let crd = GeneNodeCrd::new_demo("n", "ns").unwrap();
    assert_eq!(
        crd.to_yaml_manifest(),
        "apiVersion: netgene.io/v1alpha1\nkind: GeneNode\nmetadata:\n  name: n\n  namespace: ns\nspec:\n  geneFingerprint: \"fp-k8s-master-01\"\n  role: \"EDGE_ROUTER\"\n  template: \"quantum-edge\"\n  replicas: 3\n  enableQuantum: true\n  enableEbpf: true\nstatus:\n  phase: \"Running\"\n  activeReplicas: 3\n  ipAddress: \"10.244.0.15\"\n"
    );
}

#[test]
fn reconcile_scales_up_to_the_spec() {
    let controller = K8sController::new("netgene-system", false);
    assert_eq!(controller.namespace(), "netgene-system");
    assert!(!controller.cluster_connected());
    let mut crd = GeneNodeCrd::new_demo("alpha", "netgene-system").unwrap();
    crd.status.active_replicas = 1;
    crd.status.phase = "Pending".to_string();
    let msg = controller.reconcile(&mut crd);
    assert_eq!(crd.status.active_replicas, 3);
    assert_eq!(crd.status.phase, "Running");
    assert_eq!(msg, "Reconciled GeneNode 'alpha': 3 replicas active");
    crd.status.active_replicas = 5;
    crd.status.phase = "Scaling".to_string();
    let msg = controller.reconcile(&mut crd);
    assert_eq!(crd.status.active_replicas, 5);
    assert_eq!(crd.status.phase, "Scaling");
    assert_eq!(msg, "Reconciled GeneNode 'alpha': 5 replicas active");
}
