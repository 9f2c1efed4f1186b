use netgene::builder::{ports_fit, BuilderEngine, NodeTemplate};
use netgene::ids::{fresh_stamp, new_uuid_v4, now, uuid_to_string, Stamp, Timestamp};
use netgene::json::JsonValue;
use netgene::kernel::agent::{AgentMessage, BuilderAgent, MessageKind, NetworkAgent};
use netgene::kernel::error::KernelError;

fn stamp(id: u128, secs: i64) -> Stamp {
    Stamp { id, at: Timestamp { secs, nanos: 0 } }
}

#[test]
fn the_clock_and_the_random_source_give_version_four_ids_now() {
    let t = now().unwrap();
    assert!(t.secs > 1_600_000_000 && t.nanos < 1_000_000_000);
    let u = new_uuid_v4().unwrap();
    assert_eq!((u >> 76) & 0xf, 4);
    assert_eq!((u >> 62) & 0x3, 2);
    let s = fresh_stamp().unwrap();
    assert_eq!(uuid_to_string(s.id).chars().nth(14), Some('4'));
}

#[test]
fn a_stamped_reply_carries_the_stamp() {
    let mut agent = BuilderAgent::new_at(stamp(1, 10));
    assert_eq!(agent.id, 1);
    assert_eq!(agent.started_at, Timestamp { secs: 10, nanos: 0 });
    let msg = AgentMessage::new_at(
        Some(9),
        None,
        MessageKind::Intent,
        JsonValue::Object(vec![netgene::json::str_field("action", "spawn_node".to_string())]),
        stamp(2, 20),
    );
    let node = 0x0123_4567_89ab_4def_8123_4567_89ab_cdefu128;
    let reply = agent.handle_at(msg, stamp(3, 30), node).unwrap();
    assert_eq!(reply.id, 3);
    assert_eq!(reply.timestamp, Timestamp { secs: 30, nanos: 0 });
    assert_eq!(reply.to, Some(9));
    assert_eq!(agent.provisioned_nodes, vec!["node-01234567".to_string()]);
}

#[test]
fn a_message_that_gets_no_answer_needs_no_stamp() {
    let mut agent = NetworkAgent::new_at(stamp(4, 0));
    let msg = AgentMessage::new_at(None, None, MessageKind::Alert, JsonValue::Null, stamp(5, 0));
    let r: Result<Option<AgentMessage>, KernelError> = agent.handle(msg);
    assert!(r.unwrap().is_none());
    assert_eq!(agent.messages_processed, 1);
}

#[test]
fn provisioning_with_stamps_names_each_node_by_its_stamp() {
    let mut engine = BuilderEngine::new();
    assert!(ports_fit(0, 2));
    let stamps = vec![stamp(0xaaaa_bbbb << 96, 7), stamp(0x1234_5678 << 96, 8)];
    let nodes = engine.provision_with(NodeTemplate::Core, &stamps);
    assert_eq!(nodes[0].id, "core-aaaabbbb");
    assert_eq!(nodes[1].id, "core-12345678");
    assert_eq!(nodes[1].provisioned_at, Timestamp { secs: 8, nanos: 0 });
    assert!(!ports_fit(usize::MAX, 1));
}
