use ice_shared::channel::{
    service, ChannelConfig, TransportError, BUFFER_DEPTH, HEARTBEAT_MILLIS, HISTORY_SIZE, MAX_PUBLISHERS,
    MAX_SUBSCRIBERS,
};
use ice_shared::envelope::MessagePayload;
use ice_shared::lifecycle::{Signal, Stage};
use ice_shared::publisher::{p, publisher, Agent, Sequencer};
use ice_shared::subscriber::{s, subscriber};
use ice_shared::tracker::Anomaly;
use ice_shared::transport::IpcNode;
use iceoryx2::config::Config;
use iceoryx2::node::NodeBuilder;
use iceoryx2::service::ipc;
use iceoryx2::service::service_name::ServiceName;

fn unique(label: &str) -> String {
    let now = chrono::Utc::now();
    format!("ice_shared/{}/{}/{}", label, now.timestamp(), now.timestamp_subsec_nanos())
}

#[test]
fn the_fixed_configuration() {
    assert_eq!(BUFFER_DEPTH, 30);
    assert_eq!(HISTORY_SIZE, 30);
    assert_eq!(MAX_PUBLISHERS, 5);
    assert_eq!(MAX_SUBSCRIBERS, 5);
    assert_eq!(HEARTBEAT_MILLIS, 10);
    let c = ChannelConfig::standard();
    assert_eq!(
        c,
        ChannelConfig {
            buffer_depth: 30,
            history_size: 30,
            max_publishers: 5,
            max_subscribers: 5,
            safe_overflow: true
        }
    );
}

#[test]
fn send_then_drain_gives_the_envelopes_in_order() {
    let node = IpcNode::create().unwrap();
    let name = unique("in_order");
    let mut tx = publisher(name.clone(), &node).unwrap();
    let mut rx = subscriber(name.clone(), &node).unwrap();
    assert_eq!(rx.id, name);
    assert_eq!(rx.channel_name(), &name);
    assert_eq!(tx.seq(), 0);
    tx.send(MessagePayload::Start).unwrap();
    tx.send(MessagePayload::Tick).unwrap();
    tx.send(MessagePayload::End).unwrap();
    assert_eq!(tx.seq(), 3);
    let got = rx.recv().unwrap();
    assert_eq!(got.len(), 3);
    assert_eq!(got[0].seq, 0);
    assert_eq!(got[0].payload, MessagePayload::Start);
    assert_eq!(got[1].seq, 1);
    assert_eq!(got[1].payload, MessagePayload::Tick);
    assert_eq!(got[2].seq, 2);
    assert_eq!(got[2].payload, MessagePayload::End);
    assert!((got[0].ts.secs(), got[0].ts.nanos()) <= (got[2].ts.secs(), got[2].ts.nanos()));
    assert!(rx.recv().unwrap().is_empty());
    assert_eq!(rx.progress().expected_next(), Some(0));
}

#[test]
fn without_overflow_every_number_arrives_and_none_is_an_anomaly() {
    let node = IpcNode::create().unwrap();
    let name = unique("gapless");
    let mut tx = publisher(name.clone(), &node).unwrap();
    let mut rx = subscriber(name, &node).unwrap();
    let mut seen: Vec<usize> = Vec::new();
    for round in 0..20 {
        for _ in 0..BUFFER_DEPTH {
            tx.send(MessagePayload::Tick).unwrap();
        }
        let drain = rx.poll().unwrap();
        assert_eq!(drain.envelopes.len(), BUFFER_DEPTH);
        assert_eq!(drain.anomalies, Vec::new());
        seen.extend(drain.envelopes.iter().map(|m| m.seq));
        assert_eq!(rx.progress().expected_next(), Some((round + 1) * BUFFER_DEPTH));
    }
    let all: Vec<usize> = (0..20 * BUFFER_DEPTH).collect();
    assert_eq!(seen, all);
    assert_eq!(rx.progress().last_count(), 20 * BUFFER_DEPTH - 1);
}

#[test]
fn overflow_drops_the_oldest_and_shows_as_one_anomaly() {
    let node = IpcNode::create().unwrap();
    let name = unique("overflow");
    let mut tx = publisher(name.clone(), &node).unwrap();
    let mut rx = subscriber(name, &node).unwrap();
    for _ in 0..BUFFER_DEPTH + 10 {
        tx.send(MessagePayload::Tick).unwrap();
    }
    let drain = rx.poll().unwrap();
    let numbers: Vec<usize> = drain.envelopes.iter().map(|m| m.seq).collect();
    let kept: Vec<usize> = (10..BUFFER_DEPTH + 10).collect();
    assert_eq!(numbers, kept);
    assert_eq!(drain.anomalies, vec![Anomaly { expected: Some(0), observed: 10 }]);
    assert_eq!(rx.progress().expected_next(), Some(BUFFER_DEPTH + 10));
    tx.send(MessagePayload::Tick).unwrap();
    let drain = rx.poll().unwrap();
    assert_eq!(drain.envelopes.len(), 1);
    assert_eq!(drain.anomalies, Vec::new());
}

#[test]
fn subscribers_of_one_channel_do_not_disturb_one_another() {
    let node = IpcNode::create().unwrap();
    let name = unique("fan_out");
    let mut tx = publisher(name.clone(), &node).unwrap();
    let mut a = subscriber(name.clone(), &node).unwrap();
    let mut b = subscriber(name.clone(), &node).unwrap();
    let mut c = subscriber(name.clone(), &node).unwrap();
    for _ in 0..10 {
        tx.send(MessagePayload::Tick).unwrap();
    }
    let first = a.poll().unwrap();
    for _ in 0..10 {
        tx.send(MessagePayload::Tick).unwrap();
    }
    let second = a.poll().unwrap();
    let whole_b = b.poll().unwrap();
    let whole_c = c.poll().unwrap();
    let again_b = b.poll().unwrap();
    assert_eq!(first.envelopes.len(), 10);
    assert_eq!(second.envelopes.len(), 10);
    assert_eq!(whole_b.envelopes.len(), 20);
    assert_eq!(whole_c.envelopes.len(), 20);
    assert!(again_b.envelopes.is_empty());
    for drain in [&first, &second, &whole_b, &whole_c, &again_b] {
        assert_eq!(drain.anomalies, Vec::new());
    }
    let numbers: Vec<usize> = whole_c.envelopes.iter().map(|m| m.seq).collect();
    let all: Vec<usize> = (0..20).collect();
    assert_eq!(numbers, all);
    assert_eq!(whole_b.envelopes, whole_c.envelopes);
    for port in [&a, &b, &c] {
        assert_eq!(port.progress().expected_next(), Some(20));
    }
}

#[test]
fn two_publishers_on_one_channel_count_for_themselves() {
    let node = IpcNode::create().unwrap();
    let name = unique("two_publishers");
    let mut one = publisher(name.clone(), &node).unwrap();
    let mut two = publisher(name.clone(), &node).unwrap();
    let mut rx = subscriber(name, &node).unwrap();
    one.send(MessagePayload::Start).unwrap();
    one.send(MessagePayload::Tick).unwrap();
    two.send(MessagePayload::Start).unwrap();
    assert_eq!(one.seq(), 2);
    assert_eq!(two.seq(), 1);
    let mut numbers: Vec<usize> = rx.recv().unwrap().iter().map(|m| m.seq).collect();
    numbers.sort();
    assert_eq!(numbers, vec![0, 0, 1]);
}

#[test]
fn an_invalid_name_is_refused() {
    let node = IpcNode::create().unwrap();
    assert!(matches!(publisher(String::new(), &node), Err(TransportError::InvalidName(_))));
    assert!(matches!(subscriber(String::new(), &node), Err(TransportError::InvalidName(_))));
    assert!(matches!(
        subscriber(String::from("iox2://mine"), &node),
        Err(TransportError::InvalidName(_))
    ));
    assert!(matches!(publisher("x".repeat(256), &node), Err(TransportError::InvalidName(_))));
    assert!(matches!(publisher("é".repeat(128), &node), Err(TransportError::InvalidName(_))));
    let longest = format!("{}{}", unique("longest"), "y".repeat(255));
    assert!(publisher(longest[..255].to_string(), &node).is_ok());
    assert!(subscriber(String::from("iox2:/almost"), &node).is_ok());
}

#[test]
fn a_channel_admits_five_subscribers() {
    let node = IpcNode::create().unwrap();
    let name = unique("subscribers");
    let mut held = Vec::new();
    for _ in 0..MAX_SUBSCRIBERS {
        held.push(subscriber(name.clone(), &node).unwrap());
    }
    let one_more = subscriber(name.clone(), &node);
    assert!(matches!(one_more, Err(TransportError::SubscriberAttach(_))));
    held.pop();
    assert!(subscriber(name, &node).is_ok());
}

#[test]
fn a_channel_admits_five_publishers() {
    let node = IpcNode::create().unwrap();
    let name = unique("publishers");
    let mut held = Vec::new();
    for _ in 0..MAX_PUBLISHERS {
        held.push(publisher(name.clone(), &node).unwrap());
    }
    let one_more = publisher(name.clone(), &node);
    assert!(matches!(one_more, Err(TransportError::PublisherAttach(_))));
    held.pop();
    assert!(publisher(name, &node).is_ok());
}

#[test]
fn a_channel_of_another_making_is_not_opened() {
    let node = IpcNode::create().unwrap();
    let name = unique("conflict");
    let raw = NodeBuilder::new().config(&Config::default()).create::<ipc::Service>().unwrap();
    let other = raw
        .service_builder(&ServiceName::new(&name).unwrap())
        .publish_subscribe::<u8>()
        .open_or_create()
        .unwrap();
    assert!(matches!(publisher(name.clone(), &node), Err(TransportError::Channel(_))));
    assert!(matches!(subscriber(name.clone(), &node), Err(TransportError::Channel(_))));
    drop(other);
    assert!(subscriber(name, &node).is_ok());
}

#[test]
fn words_that_are_no_frame_fail_the_drain() {
    let node = IpcNode::create().unwrap();
    let name = unique("malformed");
    let mut rx = subscriber(name.clone(), &node).unwrap();
    let mut tx = publisher(name.clone(), &node).unwrap();
    let raw = NodeBuilder::new().config(&Config::default()).create::<ipc::Service>().unwrap();
    let channel = raw
        .service_builder(&ServiceName::new(&name).unwrap())
        .publish_subscribe::<[u64; 4]>()
        .open()
        .unwrap();
    let stranger = channel.publisher_builder().create().unwrap();
    tx.send(MessagePayload::Start).unwrap();
    stranger.send_copy([0, 0, 1, 9]).unwrap();
    let failed = rx.poll();
    assert!(matches!(failed, Err(TransportError::MalformedFrame)));
    assert_eq!(rx.progress().expected_next(), Some(0));
    tx.send(MessagePayload::Tick).unwrap();
    let drain = rx.poll().unwrap();
    assert_eq!(drain.envelopes.len(), 1);
    assert_eq!(drain.anomalies, vec![Anomaly { expected: Some(0), observed: 1 }]);
}

#[test]
fn an_agent_sends_a_lifetime() {
    let node = IpcNode::create().unwrap();
    let name = unique("agent");
    let mut rx = subscriber(name.clone(), &node).unwrap();
    let mut agent = Agent::new(publisher(name, &node).unwrap());
    assert_eq!(agent.current_stage(), Stage::Idle);
    assert_eq!(agent.handle(Signal::Tick).unwrap(), None);
    assert_eq!(agent.seq(), 0);
    assert_eq!(agent.handle(Signal::Launch).unwrap(), Some(MessagePayload::Start));
    assert_eq!(agent.current_stage(), Stage::Running);
    for _ in 0..5 {
        assert_eq!(agent.handle(Signal::Tick).unwrap(), Some(MessagePayload::Tick));
    }
    assert_eq!(agent.handle(Signal::Launch).unwrap(), None);
    assert_eq!(agent.handle(Signal::Stop).unwrap(), Some(MessagePayload::End));
    assert_eq!(agent.current_stage(), Stage::Done);
    assert_eq!(agent.handle(Signal::Tick).unwrap(), None);
    assert_eq!(agent.handle(Signal::Stop).unwrap(), None);
    assert_eq!(agent.seq(), 7);
    let drain = rx.poll().unwrap();
    assert_eq!(drain.anomalies, Vec::new());
    let got: Vec<(usize, MessagePayload)> =
        drain.envelopes.iter().map(|m| (m.seq, m.payload)).collect();
    assert_eq!(
        got,
        vec![
            (0, MessagePayload::Start),
            (1, MessagePayload::Tick),
            (2, MessagePayload::Tick),
            (3, MessagePayload::Tick),
            (4, MessagePayload::Tick),
            (5, MessagePayload::Tick),
            (6, MessagePayload::End)
        ]
    );
}

#[test]
fn a_full_wait_is_a_tick() {
    let node = IpcNode::create().unwrap();
    let before = chrono::Utc::now();
    assert_eq!(node.wait(HEARTBEAT_MILLIS), Signal::Tick);
    let waited = chrono::Utc::now() - before;
    assert!(waited.num_milliseconds() >= 9);
}

#[test]
fn ports_bound_to_an_opened_channel() {
    let node = IpcNode::create().unwrap();
    let name = unique("bound");
    let mut rx = s::new(String::from("listener"), service(name.clone(), &node).unwrap()).unwrap();
    let mut tx = p::new(service(name.clone(), &node).unwrap()).unwrap();
    assert_eq!(rx.id, "listener");
    assert_eq!(tx.seq(), 0);
    tx.send(MessagePayload::Start).unwrap();
    let got = rx.recv().unwrap();
    assert_eq!(got.len(), 1);
    assert_eq!((got[0].seq, got[0].payload), (0, MessagePayload::Start));
    assert!(matches!(service(String::new(), &node), Err(TransportError::InvalidName(_))));
}

#[test]
fn a_new_counter_stands_at_zero() {
    assert_eq!(Sequencer::new().current(), 0);
}
