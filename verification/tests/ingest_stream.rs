use dal::ingest::{InboundMessage, IngestAction, IngestEvent, IngestPhase, Ingestor};
use dal::solve::Solve;

fn solve(chal: &str, player: u128, t: i64) -> Solve {
    Solve { solved_at_ms: t, player_id: player, challenge_name: chal.to_string() }
}

#[test]
fn connect_seed_then_stream() {
    let mut ing = Ingestor::new();
    assert_eq!(ing.phase, IngestPhase::Idle);
    assert_eq!(ing.restart_count(), 0);
    assert_eq!(ing.dropped_solves_count(), 0);

    assert!(matches!(ing.step(IngestEvent::Start), IngestAction::Connect));
    assert!(matches!(ing.step(IngestEvent::ConnectOk), IngestAction::FetchSeed));

    let seed = vec![solve("pwn1", 7, 0), solve("web1", 8, 1)];
    match ing.step(IngestEvent::SeedOk(seed)) {
        IngestAction::PublishSeed(solves) => {
            assert_eq!(solves.len(), 2);
            assert_eq!(solves[0].challenge_name, "pwn1");
            assert_eq!(solves[1].challenge_name, "web1");
        }
        other => panic!("expected the seed to be published, got {:?}", describe(&other)),
    }
    assert_eq!(ing.phase, IngestPhase::Streaming);

    match ing.step(IngestEvent::Frame(InboundMessage::Solve(solve("pwn2", 9, 2)))) {
        IngestAction::Publish(s) => assert_eq!(s.challenge_name, "pwn2"),
        other => panic!("expected the solve to be published, got {:?}", describe(&other)),
    }
    assert_eq!(ing.restart_count(), 0);
}

fn describe(a: &IngestAction) -> &'static str {
    match a {
        IngestAction::Connect => "Connect",
        IngestAction::FetchSeed => "FetchSeed",
        IngestAction::PublishSeed(_) => "PublishSeed",
        IngestAction::Publish(_) => "Publish",
        IngestAction::SendPong => "SendPong",
        IngestAction::SendPing => "SendPing",
        IngestAction::WaitBackoff => "WaitBackoff",
        IngestAction::Ignore => "Ignore",
    }
}

fn streaming_ingestor() -> Ingestor {
    let mut ing = Ingestor::new();
    ing.step(IngestEvent::Start);
    ing.step(IngestEvent::ConnectOk);
    ing.step(IngestEvent::SeedOk(Vec::new()));
    assert_eq!(ing.phase, IngestPhase::Streaming);
    ing
}

#[test]
fn unrecognized_message_is_ignored_and_streaming_continues() {
    let mut ing = streaming_ingestor();
    assert!(matches!(
        ing.step(IngestEvent::Frame(InboundMessage::Unrecognized)),
        IngestAction::Ignore
    ));
    assert_eq!(ing.phase, IngestPhase::Streaming);
    assert_eq!(ing.restart_count(), 0);

    // and a frame that failed to decode at all is likewise dropped alone
    assert!(matches!(
        ing.step(IngestEvent::Frame(InboundMessage::Malformed)),
        IngestAction::Ignore
    ));
    assert_eq!(ing.phase, IngestPhase::Streaming);

    // the connection is unaffected: a solve still flows
    assert!(matches!(
        ing.step(IngestEvent::Frame(InboundMessage::Solve(solve("pwn1", 7, 0)))),
        IngestAction::Publish(_)
    ));
}

#[test]
fn disconnect_reconnects_with_one_restart_per_cycle() {
    let mut ing = streaming_ingestor();

    assert!(matches!(ing.step(IngestEvent::Disconnected), IngestAction::WaitBackoff));
    assert_eq!(ing.phase, IngestPhase::BackoffWait);
    assert_eq!(ing.restart_count(), 1);

    assert!(matches!(ing.step(IngestEvent::BackoffElapsed), IngestAction::Connect));
    assert!(matches!(ing.step(IngestEvent::ConnectOk), IngestAction::FetchSeed));
    assert!(matches!(ing.step(IngestEvent::SeedOk(Vec::new())), IngestAction::PublishSeed(_)));
    assert_eq!(ing.phase, IngestPhase::Streaming);

    // exactly one increment for the whole reconnect cycle
    assert_eq!(ing.restart_count(), 1);
}

#[test]
fn every_failure_kind_backs_off_and_counts_a_restart() {
    // connection refused
    let mut ing = Ingestor::new();
    ing.step(IngestEvent::Start);
    assert!(matches!(ing.step(IngestEvent::ConnectFailed), IngestAction::WaitBackoff));
    assert_eq!((ing.phase, ing.restart_count()), (IngestPhase::BackoffWait, 1));

    // seed fetch failure
    ing.step(IngestEvent::BackoffElapsed);
    ing.step(IngestEvent::ConnectOk);
    assert!(matches!(ing.step(IngestEvent::SeedFailed), IngestAction::WaitBackoff));
    assert_eq!((ing.phase, ing.restart_count()), (IngestPhase::BackoffWait, 2));

    // silence on the stream
    ing.step(IngestEvent::BackoffElapsed);
    ing.step(IngestEvent::ConnectOk);
    ing.step(IngestEvent::SeedOk(Vec::new()));
    assert!(matches!(ing.step(IngestEvent::SilenceTimeout), IngestAction::WaitBackoff));
    assert_eq!((ing.phase, ing.restart_count()), (IngestPhase::BackoffWait, 3));
}

#[test]
fn keepalives_flow_both_ways_while_streaming() {
    let mut ing = streaming_ingestor();
    assert!(matches!(ing.step(IngestEvent::PeerPing), IngestAction::SendPong));
    assert!(matches!(ing.step(IngestEvent::KeepaliveDue), IngestAction::SendPing));
    assert_eq!(ing.phase, IngestPhase::Streaming);
}

#[test]
fn refused_publishes_count_as_dropped() {
    let mut ing = streaming_ingestor();
    ing.note_dropped();
    ing.note_dropped();
    assert_eq!(ing.dropped_solves_count(), 2);
    assert_eq!(ing.restart_count(), 0);
}
