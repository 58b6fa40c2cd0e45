use dal::lane::{Lane, LaneAction, LaneEvent, LanePhase};
use dal::registry::{Channel, Notification, Registry, Role};
use dal::solve::Solve;

fn solve(chal: &str, player: u128, t: i64) -> Solve {
    Solve { solved_at_ms: t, player_id: player, challenge_name: chal.to_string() }
}

fn two_channel_registry() -> Registry {
    Registry::new(vec![
        Channel { id: 1, token: "fb-token".to_string(), roles: vec![Role::FirstBlood] },
        Channel { id: 2, token: "solve-token".to_string(), roles: vec![Role::Solve] },
    ])
}

/// Drives the decision protocol for one arriving solve until the lane is
/// idle again, answering store queries from `records`; returns the
/// notifications that were dispatched.
fn process(
    lane: &mut Lane,
    reg: &Registry,
    records: &mut Vec<(String, u128)>,
    s: Solve,
) -> Vec<Notification> {
    let chal = s.challenge_name.clone();
    let player = s.player_id;
    let mut sent = Vec::new();
    let mut action = lane.step(LaneEvent::Arrive(s));
    loop {
        match action {
            LaneAction::QuerySolved => {
                let solved = records.iter().any(|r| r.0 == chal);
                action = lane.step(LaneEvent::SolvedReply(solved));
            }
            LaneAction::QuerySent => {
                let was = records.iter().any(|r| r.0 == chal && r.1 == player);
                action = lane.step(LaneEvent::SentReply(was));
            }
            LaneAction::Dispatch { first_blood } => {
                let pending = lane.pending.as_ref().expect("a solve is in hand while dispatching");
                let plan = reg.plan_dispatch(first_blood, pending);
                sent.extend(plan);
                action = lane.step(LaneEvent::SendOk);
            }
            LaneAction::Record => {
                records.push((chal.clone(), player));
                action = lane.step(LaneEvent::RecordOk);
            }
            LaneAction::AwaitNext => break,
            other => panic!("unexpected action while processing: {:?}", other),
        }
    }
    sent
}

#[test]
fn first_blood_then_regular_solve() {
    let reg = two_channel_registry();
    let mut lane = Lane::new("pwn1".to_string());
    let mut records: Vec<(String, u128)> = Vec::new();

    // player A at t=0: first blood, and the general feed still gets it
    // because the first-blood channel does not serve Solve
    let sent_a = process(&mut lane, &reg, &mut records, solve("pwn1", 7, 0));
    assert_eq!(sent_a.len(), 2);
    assert!(sent_a[0].first_blood);
    assert_eq!(sent_a[0].channel_id, 1);
    assert_eq!(sent_a[0].body, "🩸 **7** from **unknown team** solved **pwn1**");
    assert!(!sent_a[1].first_blood);
    assert_eq!(sent_a[1].channel_id, 2);
    assert_eq!(sent_a[1].body, "⭐ **7** from **unknown team** solved **pwn1**");

    // player B at t=1: a regular solve only
    let sent_b = process(&mut lane, &reg, &mut records, solve("pwn1", 8, 1));
    assert_eq!(sent_b.len(), 1);
    assert!(!sent_b[0].first_blood);
    assert_eq!(sent_b[0].channel_id, 2);
    assert_eq!(sent_b[0].body, "⭐ **8** from **unknown team** solved **pwn1**");

    // two dedup records were written
    assert_eq!(records.len(), 2);
    assert!(records.contains(&("pwn1".to_string(), 7)));
    assert!(records.contains(&("pwn1".to_string(), 8)));
}

#[test]
fn first_blood_channel_serving_both_roles_gets_one_send() {
    let reg = Registry::new(vec![Channel {
        id: 9,
        token: "both-token".to_string(),
        roles: vec![Role::FirstBlood, Role::Solve],
    }]);
    let mut lane = Lane::new("pwn1".to_string());
    let mut records: Vec<(String, u128)> = Vec::new();

    let sent = process(&mut lane, &reg, &mut records, solve("pwn1", 7, 0));
    assert_eq!(sent.len(), 1);
    assert!(sent[0].first_blood);
    assert_eq!(sent[0].channel_id, 9);
}

#[test]
fn duplicate_solve_sends_nothing_and_writes_nothing() {
    let reg = two_channel_registry();
    let mut lane = Lane::new("pwn1".to_string());
    let mut records: Vec<(String, u128)> = Vec::new();

    let original = solve("pwn1", 7, 0);
    let replay = original.duplicate();
    let first = process(&mut lane, &reg, &mut records, original);
    assert_eq!(first.len(), 2);
    assert_eq!(records.len(), 1);

    // the same (challenge, player) pair again: dropped at the
    // already-notified check
    let again = process(&mut lane, &reg, &mut records, replay);
    assert!(again.is_empty());
    assert_eq!(records.len(), 1);
}

#[test]
fn first_blood_cache_skips_the_eligibility_read() {
    let mut lane = Lane::new("pwn1".to_string());

    // cold cache: the first query settles eligibility against the store
    let a = lane.step(LaneEvent::Arrive(solve("pwn1", 7, 0)));
    assert_eq!(a, LaneAction::QuerySolved);
    let a = lane.step(LaneEvent::SolvedReply(false));
    assert_eq!(a, LaneAction::QuerySent);
    let a = lane.step(LaneEvent::SentReply(false));
    assert_eq!(a, LaneAction::Dispatch { first_blood: true });
    let a = lane.step(LaneEvent::SendOk);
    assert_eq!(a, LaneAction::Record);
    let a = lane.step(LaneEvent::RecordOk);
    assert_eq!(a, LaneAction::AwaitNext);
    assert!(lane.first_blood_sent);

    // warm cache: the next solve goes straight to the already-notified
    // check, with eligibility false
    let a = lane.step(LaneEvent::Arrive(solve("pwn1", 8, 1)));
    assert_eq!(a, LaneAction::QuerySent);
    let a = lane.step(LaneEvent::SentReply(false));
    assert_eq!(a, LaneAction::Dispatch { first_blood: false });
}

#[test]
fn store_outage_retries_without_terminating() {
    let mut lane = Lane::new("pwn1".to_string());

    let a = lane.step(LaneEvent::Arrive(solve("pwn1", 7, 0)));
    assert_eq!(a, LaneAction::QuerySolved);

    // the store keeps failing: every failure asks for a retry wait, the
    // lane keeps the solve and never stops
    for round in 1..=5u64 {
        let a = lane.step(LaneEvent::StoreFailed);
        assert_eq!(a, LaneAction::WaitRetryInterval);
        assert_eq!(lane.phase, LanePhase::WaitRetry);
        assert_eq!(lane.failure_count(), round);
        assert!(lane.pending.is_some());
        let a = lane.step(LaneEvent::RetryElapsed);
        assert_eq!(a, LaneAction::QuerySolved);
    }

    // the store recovers: the protocol completes for the same solve
    let a = lane.step(LaneEvent::SolvedReply(false));
    assert_eq!(a, LaneAction::QuerySent);
    let a = lane.step(LaneEvent::SentReply(false));
    assert_eq!(a, LaneAction::Dispatch { first_blood: true });
}

#[test]
fn send_failure_retries_whole_protocol_and_records_once() {
    let reg = two_channel_registry();
    let mut lane = Lane::new("pwn1".to_string());
    let mut records: Vec<(String, u128)> = Vec::new();

    // run the protocol by hand, failing the first send
    let a = lane.step(LaneEvent::Arrive(solve("pwn1", 7, 0)));
    assert_eq!(a, LaneAction::QuerySolved);
    let a = lane.step(LaneEvent::SolvedReply(false));
    assert_eq!(a, LaneAction::QuerySent);
    let a = lane.step(LaneEvent::SentReply(false));
    assert_eq!(a, LaneAction::Dispatch { first_blood: true });
    let a = lane.step(LaneEvent::SendFailed);
    assert_eq!(a, LaneAction::WaitRetryInterval);

    // the retry restarts from the first step, not mid-protocol
    let a = lane.step(LaneEvent::RetryElapsed);
    assert_eq!(a, LaneAction::QuerySolved);
    let a = lane.step(LaneEvent::SolvedReply(false));
    assert_eq!(a, LaneAction::QuerySent);
    let a = lane.step(LaneEvent::SentReply(false));
    assert_eq!(a, LaneAction::Dispatch { first_blood: true });
    let pending = lane.pending.as_ref().expect("solve still in hand");
    let plan = reg.plan_dispatch(true, pending);
    assert_eq!(plan.len(), 2);
    let a = lane.step(LaneEvent::SendOk);
    assert_eq!(a, LaneAction::Record);
    records.push(("pwn1".to_string(), 7));
    let a = lane.step(LaneEvent::RecordOk);
    assert_eq!(a, LaneAction::AwaitNext);

    // exactly one record despite the retried send
    assert_eq!(records.len(), 1);
    assert!(lane.first_blood_sent);
}

#[test]
fn sends_keep_arrival_order_within_a_lane() {
    let reg = two_channel_registry();
    let mut lane = Lane::new("pwn1".to_string());
    let mut records: Vec<(String, u128)> = Vec::new();

    let mut all_sent: Vec<Notification> = Vec::new();
    for (player, t) in [(7u128, 0i64), (8, 1), (9, 2)] {
        all_sent.extend(process(&mut lane, &reg, &mut records, solve("pwn1", player, t)));
    }

    // the solves' notifications come out in the order the solves arrived:
    // first blood for 7, then regular sends for 7, 8, 9 in turn
    let bodies: Vec<&str> = all_sent.iter().map(|n| n.body.as_str()).collect();
    assert_eq!(
        bodies,
        vec![
            "🩸 **7** from **unknown team** solved **pwn1**",
            "⭐ **7** from **unknown team** solved **pwn1**",
            "⭐ **8** from **unknown team** solved **pwn1**",
            "⭐ **9** from **unknown team** solved **pwn1**",
        ]
    );
}

#[test]
fn idle_timeout_retires_an_empty_lane() {
    let mut lane = Lane::new("pwn1".to_string());
    let a = lane.step(LaneEvent::IdleTimeout);
    assert_eq!(a, LaneAction::Stop);
    assert_eq!(lane.phase, LanePhase::Terminated);
    assert!(lane.pending.is_none());
}
