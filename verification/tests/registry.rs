use liminal_hub::hub::BroadcastHub;
use liminal_hub::event::HubEvent;
use liminal_hub::registry::{has_failure, Delivery, ObserverRegistry};
use liminal_hub::session::{react, Inbound, Reaction};

fn key(id: &str) -> String {
    id.to_string()
}

fn outcome(id: &str, delivered: bool) -> Delivery {
    Delivery { id: id.to_string(), delivered }
}

fn looks_like_uuid(id: &str) -> bool {
    let bytes = id.as_bytes();
    bytes.len() == 36
        && bytes.iter().enumerate().all(|(i, b)| match i {
            8 | 13 | 18 | 23 => *b == b'-',
            _ => b.is_ascii_digit() || (b'a'..=b'f').contains(b),
        })
}

#[test]
fn new_registry_is_empty() {
    let registry: ObserverRegistry<u32> = ObserverRegistry::new();
    assert_eq!(registry.len(), 0);
    assert!(registry.recipients().is_empty());
}

#[test]
fn register_returns_a_fresh_identifier() {
    let mut registry: ObserverRegistry<u32> = ObserverRegistry::new();
    let a = registry.register(1);
    let b = registry.register(2);
    assert!(looks_like_uuid(&a));
    assert!(looks_like_uuid(&b));
    assert_ne!(a, b);
    assert_eq!(registry.len(), 2);
    assert_eq!(registry.channel(&a), Some(&1));
    assert_eq!(registry.channel(&b), Some(&2));
    assert_eq!(registry.recipients(), vec![a, b]);
}

#[test]
fn enroll_under_a_known_identifier_replaces_the_channel() {
    let mut registry: ObserverRegistry<&str> = ObserverRegistry::new();
    assert_eq!(registry.enroll(key("a"), "first"), None);
    assert_eq!(registry.enroll(key("b"), "other"), None);
    assert_eq!(registry.enroll(key("a"), "second"), Some("first"));
    assert_eq!(registry.len(), 2);
    assert_eq!(registry.channel(&key("a")), Some(&"second"));
    assert_eq!(registry.recipients(), vec!["a", "b"]);
}

#[test]
fn unregister_is_idempotent() {
    let mut registry: ObserverRegistry<u8> = ObserverRegistry::new();
    registry.enroll(key("a"), 1);
    registry.enroll(key("b"), 2);
    assert_eq!(registry.unregister(&key("a")), Some(1));
    assert_eq!(registry.unregister(&key("a")), None);
    assert_eq!(registry.unregister(&key("never")), None);
    assert!(!registry.contains(&key("a")));
    assert!(registry.contains(&key("b")));
    assert_eq!(registry.len(), 1);
}

#[test]
fn has_failure_looks_for_a_failed_attempt() {
    let report = vec![outcome("a", true), outcome("b", false), outcome("a", true)];
    assert!(!has_failure(&report, &key("a")));
    assert!(has_failure(&report, &key("b")));
    assert!(!has_failure(&report, &key("c")));
    assert!(!has_failure(&Vec::new(), &key("a")));
}

#[test]
fn settle_drops_the_failing_observer_and_keeps_the_others() {
    let mut registry: ObserverRegistry<u32> = ObserverRegistry::new();
    registry.enroll(key("a"), 10);
    registry.enroll(key("b"), 20);
    registry.enroll(key("c"), 30);
    let recipients = registry.recipients();
    assert_eq!(recipients, vec!["a", "b", "c"]);
    let report: Vec<Delivery> =
        recipients.iter().map(|id| outcome(id, id != "b")).collect();
    registry.settle(&report);
    assert!(!registry.contains(&key("b")));
    assert_eq!(registry.channel(&key("a")), Some(&10));
    assert_eq!(registry.channel(&key("c")), Some(&30));
    assert_eq!(registry.recipients(), vec!["a", "c"]);
}

#[test]
fn settle_with_all_delivered_changes_nothing() {
    let mut registry: ObserverRegistry<u32> = ObserverRegistry::new();
    registry.enroll(key("a"), 10);
    registry.enroll(key("b"), 20);
    registry.settle(&vec![outcome("a", true), outcome("b", true)]);
    assert_eq!(registry.recipients(), vec!["a", "b"]);
    registry.settle(&Vec::new());
    assert_eq!(registry.recipients(), vec!["a", "b"]);
}

#[test]
fn settle_drops_every_failed_observer() {
    let mut registry: ObserverRegistry<u32> = ObserverRegistry::new();
    for (i, id) in ["a", "b", "c", "d", "e"].iter().enumerate() {
        registry.enroll(key(id), i as u32);
    }
    registry.settle(&vec![
        outcome("e", false),
        outcome("a", false),
        outcome("c", true),
        outcome("zz", false),
    ]);
    assert_eq!(registry.recipients(), vec!["b", "c", "d"]);
    assert_eq!(registry.channel(&key("d")), Some(&3));
}

#[test]
fn settle_counts_one_failure_among_successes() {
    let mut registry: ObserverRegistry<u32> = ObserverRegistry::new();
    registry.enroll(key("a"), 1);
    registry.settle(&vec![outcome("a", true), outcome("a", false)]);
    assert_eq!(registry.len(), 0);
}

#[test]
fn observer_joining_after_publish_is_not_addressed() {
    let mut hub: BroadcastHub<u32> = BroadcastHub::new();
    let first = hub.connect(1).session_id;
    let publication = hub.publish(HubEvent::Echo { received: "x".to_string() });
    let second = hub.connect(2).session_id;
    assert_eq!(publication.recipients, vec![first.clone()]);
    hub.settle(&vec![Delivery { id: first.clone(), delivered: true }]);
    assert_eq!(hub.observer_count(), 2);
    assert_eq!(hub.channel(&second), Some(&2));
}

#[test]
fn connect_greets_with_the_session_identifier() {
    let mut hub: BroadcastHub<&str> = BroadcastHub::new();
    let welcome = hub.connect("socket");
    assert!(looks_like_uuid(&welcome.session_id));
    assert_eq!(welcome.greeting.msg_type, "connected");
    assert_eq!(
        welcome.greeting.payload,
        HubEvent::Connected { session_id: welcome.session_id.clone() }
    );
    assert_eq!(hub.observer_count(), 1);
    assert_eq!(hub.channel(&welcome.session_id), Some(&"socket"));
}

#[test]
fn disconnect_removes_the_observer_once() {
    let mut hub: BroadcastHub<u8> = BroadcastHub::new();
    let id = hub.connect(7).session_id;
    assert_eq!(hub.disconnect(&id), Some(7));
    assert_eq!(hub.disconnect(&id), None);
    assert_eq!(hub.observer_count(), 0);
}

#[test]
fn publish_wraps_the_event_and_addresses_everyone() {
    let mut hub: BroadcastHub<u8> = BroadcastHub::new();
    let a = hub.connect(1).session_id;
    let b = hub.connect(2).session_id;
    let event = HubEvent::SpinComplete {
        spin_id: "s".to_string(),
        result: "r".to_string(),
        duration_ms: 12,
    };
    let publication = hub.publish(event);
    assert_eq!(publication.envelope.msg_type, "spin_complete");
    assert_eq!(
        publication.envelope.payload,
        HubEvent::SpinComplete { spin_id: "s".to_string(), result: "r".to_string(), duration_ms: 12 }
    );
    assert_eq!(publication.recipients, vec![a, b]);
}

#[test]
fn hub_broadcast_with_one_dead_observer() {
    let mut hub: BroadcastHub<u8> = BroadcastHub::new();
    let a = hub.connect(1).session_id;
    let dead = hub.connect(2).session_id;
    let c = hub.connect(3).session_id;
    let publication = hub.publish(HubEvent::Echo { received: "hi".to_string() });
    let mut reached = Vec::new();
    let mut report = Vec::new();
    for id in &publication.recipients {
        let delivered = *id != dead;
        if delivered {
            reached.push(id.clone());
        }
        report.push(Delivery { id: id.clone(), delivered });
    }
    hub.settle(&report);
    assert_eq!(reached, vec![a.clone(), c.clone()]);
    assert_eq!(hub.channel(&dead), None);
    assert_eq!(hub.channel(&a), Some(&1));
    assert_eq!(hub.channel(&c), Some(&3));
    assert_eq!(hub.publish(HubEvent::Echo { received: "again".to_string() }).recipients, vec![a, c]);
}

#[test]
fn type_tags_of_all_events() {
    let events = vec![
        (HubEvent::Connected { session_id: "s".to_string() }, "connected"),
        (HubEvent::Echo { received: "t".to_string() }, "echo"),
        (
            HubEvent::SpinStart { spin_id: "s".to_string(), options: vec![], mode: "m".to_string() },
            "spin_start",
        ),
        (
            HubEvent::SpinTick {
                spin_id: "s".to_string(),
                highlight_index: 0,
                current_option: "a".to_string(),
                tick: 0,
                total_ticks: 15,
            },
            "spin_tick",
        ),
        (
            HubEvent::SpinComplete { spin_id: "s".to_string(), result: "a".to_string(), duration_ms: 1 },
            "spin_complete",
        ),
    ];
    for (event, tag) in events {
        assert_eq!(event.type_tag(), tag);
        let envelope = event.into_envelope();
        assert_eq!(envelope.msg_type, tag);
        assert_eq!(envelope.payload.type_tag(), tag);
    }
}

#[test]
fn text_frames_are_echoed() {
    assert_eq!(
        react(Inbound::Text("hello".to_string())),
        Reaction::Reply(HubEvent::Echo { received: "hello".to_string() })
    );
    assert_eq!(
        react(Inbound::Text(String::new())),
        Reaction::Reply(HubEvent::Echo { received: String::new() })
    );
}

#[test]
fn close_frame_ends_the_connection() {
    assert_eq!(react(Inbound::Close), Reaction::Disconnect);
}

#[test]
fn other_frames_are_passed_over() {
    assert_eq!(react(Inbound::Other), Reaction::Ignore);
}
