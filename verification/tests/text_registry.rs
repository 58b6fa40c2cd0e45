use dal::dispatch::LaneDirectory;
use dal::registry::{Channel, Registry, Role};
use dal::solve::Solve;
use dal::text::{dec_string, first_blood_body, render_metrics, solve_body};
use dal::{bump, websocket_scheme};

fn solve(chal: &str, player: u128, t: i64) -> Solve {
    Solve { solved_at_ms: t, player_id: player, challenge_name: chal.to_string() }
}

#[test]
fn decimal_rendering_is_exact() {
    assert_eq!(dec_string(0), "0");
    assert_eq!(dec_string(7), "7");
    assert_eq!(dec_string(10), "10");
    assert_eq!(dec_string(12345), "12345");
    assert_eq!(
        dec_string(u128::MAX),
        "340282366920938463463374607431768211455"
    );
}

#[test]
fn notification_bodies_are_exact() {
    let s = solve("pwn1", 42, 0);
    assert_eq!(
        first_blood_body(&s),
        "🩸 **42** from **unknown team** solved **pwn1**"
    );
    assert_eq!(
        solve_body(&s),
        "⭐ **42** from **unknown team** solved **pwn1**"
    );
}

#[test]
fn metrics_render_one_per_line() {
    assert_eq!(
        render_metrics(3, 14),
        "restart_count 3\ndropped_solves_count 14\n"
    );
    assert_eq!(render_metrics(0, 0), "restart_count 0\ndropped_solves_count 0\n");
}

#[test]
fn websocket_scheme_upgrades_http_only() {
    assert_eq!(websocket_scheme("http"), Some("ws"));
    assert_eq!(websocket_scheme("https"), Some("wss"));
    assert_eq!(websocket_scheme("ftp"), None);
    assert_eq!(websocket_scheme(""), None);
    assert_eq!(websocket_scheme("wss"), None);
}

#[test]
fn counters_saturate_at_the_ceiling() {
    assert_eq!(bump(0), 1);
    assert_eq!(bump(41), 42);
    assert_eq!(bump(u64::MAX), u64::MAX);
}

#[test]
fn pick_returns_a_capable_channel_or_nothing() {
    let reg = Registry::new(vec![
        Channel { id: 1, token: "a".to_string(), roles: vec![Role::FirstBlood] },
        Channel { id: 2, token: "b".to_string(), roles: vec![Role::Solve] },
        Channel { id: 3, token: "c".to_string(), roles: vec![Role::Solve] },
    ]);

    // the random pick always lands on a channel serving the role
    for _ in 0..50 {
        let i = reg.pick(Role::Solve).expect("two channels serve Solve");
        assert!(i == 1 || i == 2);
        let f = reg.pick(Role::FirstBlood).expect("one channel serves FirstBlood");
        assert_eq!(f, 0);
    }

    let empty = Registry::new(Vec::new());
    assert_eq!(empty.pick(Role::Solve), None);
    assert_eq!(empty.pick(Role::FirstBlood), None);
}

#[test]
fn plan_without_first_blood_channel_still_feeds_the_general_feed() {
    let reg = Registry::new(vec![Channel {
        id: 2,
        token: "b".to_string(),
        roles: vec![Role::Solve],
    }]);
    let plan = reg.plan_dispatch(true, &solve("pwn1", 7, 0));
    assert_eq!(plan.len(), 1);
    assert!(!plan[0].first_blood);
    assert_eq!(plan[0].channel_id, 2);
    assert_eq!(plan[0].body, "⭐ **7** from **unknown team** solved **pwn1**");
}

#[test]
fn plan_with_no_channels_at_all_is_empty() {
    let reg = Registry::new(Vec::new());
    assert!(reg.plan_dispatch(true, &solve("pwn1", 7, 0)).is_empty());
    assert!(reg.plan_dispatch(false, &solve("pwn1", 7, 0)).is_empty());
}

#[test]
fn plan_carries_the_channel_credential() {
    let reg = Registry::new(vec![Channel {
        id: 5,
        token: "token-xyz".to_string(),
        roles: vec![Role::FirstBlood, Role::Solve],
    }]);
    let plan = reg.plan_dispatch(true, &solve("pwn1", 7, 0));
    assert_eq!(plan.len(), 1);
    assert_eq!(plan[0].channel_token, "token-xyz");
}

#[test]
fn lane_directory_keeps_one_slot_per_challenge() {
    let mut dir = LaneDirectory::new();
    assert_eq!(dir.len(), 0);
    assert_eq!(dir.find(&"pwn1".to_string()), None);

    let (a, created_a) = dir.slot_for(&"pwn1".to_string());
    assert!(created_a);
    assert_eq!(a, 0);

    let (b, created_b) = dir.slot_for(&"web1".to_string());
    assert!(created_b);
    assert_eq!(b, 1);

    // the same challenge maps to the same slot, nothing new is created
    let (a2, created_a2) = dir.slot_for(&"pwn1".to_string());
    assert!(!created_a2);
    assert_eq!(a2, 0);
    assert_eq!(dir.len(), 2);

    assert_eq!(dir.find(&"web1".to_string()), Some(1));
    assert_eq!(dir.find(&"rev1".to_string()), None);
}

#[test]
fn empty_challenge_name_is_a_key_like_any_other() {
    let mut dir = LaneDirectory::new();
    let (slot, created) = dir.slot_for(&String::new());
    assert!(created);
    assert_eq!(dir.find(&String::new()), Some(slot));

    let s = solve("", 1, 0);
    assert_eq!(first_blood_body(&s), "🩸 **1** from **unknown team** solved ****");
}
