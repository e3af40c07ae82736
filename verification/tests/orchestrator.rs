use ice_shared::channel::TransportError;
use ice_shared::envelope::MessagePayload;
use ice_shared::lifecycle::Signal;
use ice_shared::orchestrator::{agent_name, Orchestrator, Phase, Step};
use ice_shared::publisher::{publisher, Agent};
use ice_shared::tracker::Anomaly;
use ice_shared::transport::IpcNode;
use iceoryx2::config::Config;
use iceoryx2::node::NodeBuilder;
use iceoryx2::service::ipc;
use iceoryx2::service::service_name::ServiceName;

fn names(n: usize) -> Vec<String> {
    (0..n).map(|i| format!("testing{}", i)).collect()
}

fn counts(orchestrator: &Orchestrator) -> Vec<(String, usize)> {
    orchestrator.summary()
}

fn visit(orchestrator: &mut Orchestrator, cancelled: bool) -> (usize, usize, Vec<Anomaly>, bool) {
    match orchestrator.step(cancelled) {
        Step::Visited { agent, outcome } => {
            let drain = outcome.unwrap();
            (agent, drain.envelopes.len(), drain.anomalies, drain.progress)
        }
        other => panic!("no visit: {:?}", other),
    }
}

#[test]
fn agents_are_named_by_their_index() {
    assert_eq!(agent_name(0), "testing0");
    assert_eq!(agent_name(1), "testing1");
    assert_eq!(agent_name(12), "testing12");
    assert_eq!(agent_name(usize::MAX), format!("testing{}", usize::MAX));
    let orchestrator = Orchestrator::new(4);
    assert_eq!(orchestrator.agent_names(), &names(4));
}

#[test]
fn before_the_run_nothing_is_visited() {
    let mut orchestrator = Orchestrator::new(2);
    assert_eq!(orchestrator.current_phase(), Phase::Starting);
    assert!(matches!(orchestrator.step(false), Step::Idle));
    assert!(matches!(orchestrator.step(true), Step::Idle));
    assert_eq!(orchestrator.current_phase(), Phase::Starting);
    assert_eq!(
        counts(&orchestrator),
        vec![(String::from("testing0"), 0), (String::from("testing1"), 0)]
    );
}

#[test]
fn three_agents_from_start_to_end() {
    let node = IpcNode::create().unwrap();
    let mut orchestrator = Orchestrator::new(3);
    orchestrator.open(&node).unwrap();
    assert_eq!(orchestrator.current_phase(), Phase::Running);
    let mut agents: Vec<Agent> = names(3)
        .into_iter()
        .map(|name| Agent::new(publisher(name, &node).unwrap()))
        .collect();
    for agent in agents.iter_mut() {
        assert_eq!(agent.handle(Signal::Launch).unwrap(), Some(MessagePayload::Start));
    }
    for _ in 0..50 {
        for agent in agents.iter_mut() {
            assert_eq!(agent.handle(Signal::Tick).unwrap(), Some(MessagePayload::Tick));
        }
        for index in 0..3 {
            let (agent, _, anomalies, progress) = visit(&mut orchestrator, false);
            assert_eq!(agent, index);
            assert_eq!(anomalies, Vec::new());
            assert!(!progress);
        }
    }
    assert_eq!(
        counts(&orchestrator),
        vec![
            (String::from("testing0"), 50),
            (String::from("testing1"), 50),
            (String::from("testing2"), 50)
        ]
    );
    for agent in agents.iter_mut() {
        assert_eq!(agent.handle(Signal::Stop).unwrap(), Some(MessagePayload::End));
        assert_eq!(agent.seq(), 52);
    }
    for index in 0..3 {
        let (agent, drained, anomalies, _) = visit(&mut orchestrator, false);
        assert_eq!((agent, drained), (index, 1));
        assert_eq!(anomalies, Vec::new());
    }
    assert!(matches!(orchestrator.step(true), Step::Finished));
    assert_eq!(orchestrator.current_phase(), Phase::Finished);
    let last = counts(&orchestrator);
    assert_eq!(
        last,
        vec![
            (String::from("testing0"), 51),
            (String::from("testing1"), 51),
            (String::from("testing2"), 51)
        ]
    );
    for (agent, (_, count)) in agents.iter().zip(last.iter()) {
        assert!(*count < agent.seq());
    }
    assert!(matches!(orchestrator.step(false), Step::Finished));
    assert!(matches!(orchestrator.step(true), Step::Finished));
    assert_eq!(counts(&orchestrator), last);
}

#[test]
fn cancellation_in_mid_round_lets_the_round_end_and_starts_no_other() {
    let node = IpcNode::create().unwrap();
    let mut orchestrator = Orchestrator::new(3);
    orchestrator.open(&node).unwrap();
    let mut ports: Vec<_> = names(3).into_iter().map(|n| publisher(n, &node).unwrap()).collect();
    for port in ports.iter_mut() {
        port.send(MessagePayload::Start).unwrap();
        port.send(MessagePayload::Tick).unwrap();
    }
    assert_eq!(visit(&mut orchestrator, false).0, 0);
    assert_eq!(orchestrator.current_phase(), Phase::Running);
    assert_eq!(visit(&mut orchestrator, true).0, 1);
    assert_eq!(orchestrator.current_phase(), Phase::Cancelling);
    assert_eq!(visit(&mut orchestrator, false).0, 2);
    assert_eq!(orchestrator.current_phase(), Phase::Cancelling);
    assert!(matches!(orchestrator.step(false), Step::Finished));
    assert_eq!(orchestrator.current_phase(), Phase::Finished);
    assert_eq!(
        counts(&orchestrator),
        vec![
            (String::from("testing0"), 1),
            (String::from("testing1"), 1),
            (String::from("testing2"), 1)
        ]
    );
}

#[test]
fn cancellation_at_the_top_of_a_round_ends_the_run_at_once() {
    let node = IpcNode::create().unwrap();
    let mut orchestrator = Orchestrator::new(2);
    orchestrator.open(&node).unwrap();
    assert!(matches!(orchestrator.step(true), Step::Finished));
    assert_eq!(
        counts(&orchestrator),
        vec![(String::from("testing0"), 0), (String::from("testing1"), 0)]
    );
    let mut other = Orchestrator::new(2);
    other.open(&node).unwrap();
    assert_eq!(visit(&mut other, false).0, 0);
    assert_eq!(visit(&mut other, false).0, 1);
    assert!(matches!(other.step(true), Step::Finished));
}

#[test]
fn an_orchestrator_without_agents() {
    let node = IpcNode::create().unwrap();
    let mut orchestrator = Orchestrator::new(0);
    orchestrator.open(&node).unwrap();
    assert_eq!(orchestrator.current_phase(), Phase::Running);
    assert!(matches!(orchestrator.step(false), Step::Idle));
    assert!(matches!(orchestrator.step(true), Step::Finished));
    assert_eq!(counts(&orchestrator), Vec::new());
}

#[test]
fn opening_twice_changes_nothing() {
    let node = IpcNode::create().unwrap();
    let mut orchestrator = Orchestrator::new(1);
    orchestrator.open(&node).unwrap();
    let mut port = publisher(String::from("testing0"), &node).unwrap();
    port.send(MessagePayload::Start).unwrap();
    assert_eq!(visit(&mut orchestrator, false), (0, 1, Vec::new(), false));
    orchestrator.open(&node).unwrap();
    assert_eq!(orchestrator.current_phase(), Phase::Running);
    port.send(MessagePayload::Tick).unwrap();
    assert_eq!(visit(&mut orchestrator, false), (0, 1, Vec::new(), false));
    assert_eq!(counts(&orchestrator), vec![(String::from("testing0"), 1)]);
}

#[test]
fn an_agent_that_cannot_be_subscribed_to_fails_the_start() {
    let node = IpcNode::create().unwrap();
    let raw = NodeBuilder::new().config(&Config::default()).create::<ipc::Service>().unwrap();
    let other = raw
        .service_builder(&ServiceName::new("testing1").unwrap())
        .publish_subscribe::<u8>()
        .open_or_create()
        .unwrap();
    let mut orchestrator = Orchestrator::new(3);
    assert!(matches!(orchestrator.open(&node), Err(TransportError::Channel(_))));
    assert_eq!(orchestrator.current_phase(), Phase::Starting);
    assert!(matches!(orchestrator.step(false), Step::Idle));
    drop(other);
    orchestrator.open(&node).unwrap();
    assert_eq!(orchestrator.current_phase(), Phase::Running);
}

#[test]
fn a_failed_drain_costs_one_turn_and_no_count() {
    let node = IpcNode::create().unwrap();
    let mut orchestrator = Orchestrator::new(2);
    orchestrator.open(&node).unwrap();
    let mut zero = publisher(String::from("testing0"), &node).unwrap();
    let mut one = publisher(String::from("testing1"), &node).unwrap();
    for _ in 0..3 {
        zero.send(MessagePayload::Tick).unwrap();
        one.send(MessagePayload::Tick).unwrap();
    }
    assert_eq!(visit(&mut orchestrator, false), (0, 3, Vec::new(), false));
    assert_eq!(visit(&mut orchestrator, false), (1, 3, Vec::new(), false));
    let raw = NodeBuilder::new().config(&Config::default()).create::<ipc::Service>().unwrap();
    let channel = raw
        .service_builder(&ServiceName::new("testing0").unwrap())
        .publish_subscribe::<[u64; 4]>()
        .open()
        .unwrap();
    let stranger = channel.publisher_builder().create().unwrap();
    stranger.send_copy([u64::MAX, 0, 0, 0]).unwrap();
    one.send(MessagePayload::Tick).unwrap();
    match orchestrator.step(false) {
        Step::Visited { agent: 0, outcome: Err(TransportError::MalformedFrame) } => {}
        other => panic!("{:?}", other),
    }
    assert_eq!(visit(&mut orchestrator, false), (1, 1, Vec::new(), false));
    assert_eq!(
        counts(&orchestrator),
        vec![(String::from("testing0"), 2), (String::from("testing1"), 3)]
    );
    zero.send(MessagePayload::Tick).unwrap();
    assert_eq!(visit(&mut orchestrator, false), (0, 1, Vec::new(), false));
    assert_eq!(counts(&orchestrator)[0], (String::from("testing0"), 3));
}

#[test]
fn a_slow_round_shows_as_an_anomaly_and_the_count_catches_up() {
    let node = IpcNode::create().unwrap();
    let mut orchestrator = Orchestrator::new(1);
    orchestrator.open(&node).unwrap();
    let mut port = publisher(String::from("testing0"), &node).unwrap();
    for _ in 0..100 {
        port.send(MessagePayload::Tick).unwrap();
    }
    let (_, drained, anomalies, _) = visit(&mut orchestrator, false);
    assert_eq!(drained, 30);
    assert_eq!(anomalies, vec![Anomaly { expected: Some(0), observed: 70 }]);
    assert_eq!(counts(&orchestrator), vec![(String::from("testing0"), 99)]);
    port.send(MessagePayload::Tick).unwrap();
    assert_eq!(visit(&mut orchestrator, false), (0, 1, Vec::new(), false));
    assert_eq!(counts(&orchestrator), vec![(String::from("testing0"), 100)]);
}

#[test]
fn progress_is_due_when_an_agent_passes_a_thousand() {
    let node = IpcNode::create().unwrap();
    let mut orchestrator = Orchestrator::new(1);
    orchestrator.open(&node).unwrap();
    let mut port = publisher(String::from("testing0"), &node).unwrap();
    let mut noted = 0;
    for _ in 0..125 {
        for _ in 0..20 {
            port.send(MessagePayload::Tick).unwrap();
        }
        let (_, drained, anomalies, progress) = visit(&mut orchestrator, false);
        assert_eq!(drained, 20);
        assert_eq!(anomalies, Vec::new());
        if progress {
            noted += 1;
            assert!(counts(&orchestrator)[0].1 == 999 || counts(&orchestrator)[0].1 == 1999);
        }
    }
    assert_eq!(noted, 2);
    assert_eq!(counts(&orchestrator), vec![(String::from("testing0"), 2499)]);
}
