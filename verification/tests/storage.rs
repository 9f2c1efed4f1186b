use netgene::gene::crypto::{CryptoError, GeneKeyPair};
use netgene::gene::identity::NetGene;
use netgene::gene::storage::{gene_file_name, key_file_name, keypair_from_text, sort_by_creation, trim, StorageError};
use netgene::ids::Timestamp;
use netgene::k8s::controller::K8sController;
use netgene::k8s::crd::GeneNodeCrd;
use netgene::kernel::agent::{AgentMessage, MessageKind};
use netgene::kernel::bus::{route, Route};
use netgene::json::JsonValue;

const ID: u128 = 0x0123_4567_89ab_cdef_0123_4567_89ab_cdef;

#[test]
fn stored_files_are_named_by_the_gene_id() {
    assert_eq!(gene_file_name(ID), "01234567-89ab-cdef-0123-456789abcdef.gene.json");
    assert_eq!(key_file_name(ID), "01234567-89ab-cdef-0123-456789abcdef.key");
}

#[test]
fn trim_drops_surrounding_white_space_only() {
    assert_eq!(trim("  abc \n"), "abc");
    assert_eq!(trim("a b"), "a b");
    assert_eq!(trim("\t\r\n "), "");
    assert_eq!(trim(""), "");
}

#[test]
fn a_stored_key_reads_back_as_the_same_key() {
    let kp = GeneKeyPair::generate().unwrap();
    let text = format!("  {}\n", kp.pkcs8_b64());
    let back = keypair_from_text(&text).unwrap();
    assert_eq!(back.pkcs8_bytes(), kp.pkcs8_bytes());
    assert_eq!(back.public_key_bytes(), kp.public_key_bytes());
}

#[test]
fn a_damaged_key_file_is_refused() {
    assert!(matches!(keypair_from_text("not base64 !"), Err(StorageError::KeyEncoding)));
    assert!(matches!(
        keypair_from_text("AAAA"),
        Err(StorageError::Key(CryptoError::InvalidPkcs8))
    ));
}

fn gene_at(name: &str, secs: i64) -> NetGene {
    let (mut g, _) = NetGene::generate_master(name).unwrap();
    g.created_at = Timestamp { secs, nanos: 0 };
    g
}

#[test]
fn genes_are_listed_oldest_first_and_ties_keep_their_order() {
    let genes = vec![gene_at("c", 30), gene_at("a1", 10), gene_at("b", 20), gene_at("a2", 10)];
    let sorted = sort_by_creation(genes);
    let names: Vec<&str> = sorted.iter().map(|g| g.name.as_str()).collect();
    assert_eq!(names, vec!["a1", "a2", "b", "c"]);
}

#[test]
fn shutdown_goes_to_every_agent_and_other_messages_to_their_addressee() {
    let m = AgentMessage::new(None, Some(7), MessageKind::Shutdown, JsonValue::Null).unwrap();
    assert_eq!(route(&m), Route::ShutdownAll);
    let m = AgentMessage::new(None, Some(7), MessageKind::Intent, JsonValue::Null).unwrap();
    assert_eq!(route(&m), Route::Deliver(7));
    let m = AgentMessage::new(Some(3), None, MessageKind::Alert, JsonValue::Null).unwrap();
    assert_eq!(route(&m), Route::Broadcast);
}

#[test]
fn reconciling_twice_changes_nothing_more() {
    let controller = K8sController::new("ns", true);
    let mut crd = GeneNodeCrd::new_demo("beta", "ns").unwrap();
    crd.status.active_replicas = 0;
    crd.status.phase = "Pending".to_string();
    controller.reconcile(&mut crd);
    let (replicas, phase) = (crd.status.active_replicas, crd.status.phase.clone());
    let msg = controller.reconcile(&mut crd);
    assert_eq!(crd.status.active_replicas, replicas);
    assert_eq!(crd.status.phase, phase);
    assert_eq!(msg, "Reconciled GeneNode 'beta': 3 replicas active");
}
