use broadcast_relay::broadcast_label;
use broadcast_relay::decision::{decide, Decision, RelayPlan};
use broadcast_relay::forwarder::{build_payload, build_send, u64_decimal, ForwardError, Payload};
use broadcast_relay::model::{Author, Channel, Message, ProxyIdentity};
use broadcast_relay::resolver::{select_proxy, Resolution};
use broadcast_relay::run::{RelayRun, TargetOutcome};
use broadcast_relay::{on_stream_error, StreamAction};

fn author(name: &str, bot: bool, avatar: Option<&str>) -> Author {
    Author {
        id: 77,
        name: name.to_string(),
        bot,
        avatar: avatar.map(|a| a.to_string()),
    }
}

fn message(channel_id: u64, name: &str, content: &str) -> Message {
    Message {
        id: 1000,
        channel_id,
        author: author(name, false, None),
        content: content.to_string(),
    }
}

fn named(id: u64, name: &str) -> Channel {
    Channel {
        id,
        name: Some(name.to_string()),
    }
}

fn proxy(id: u64, channel_id: u64, name: Option<&str>, token: Option<&str>) -> ProxyIdentity {
    ProxyIdentity {
        id,
        channel_id,
        name: name.map(|n| n.to_string()),
        token: token.map(|t| t.to_string()),
    }
}

fn label() -> String {
    broadcast_label()
}

#[test]
fn broadcast_label_value() {
    assert_eq!(label(), "test-global");
}

#[test]
fn bot_author_skipped() {
    let dir = vec![named(1, "test-global"), named(2, "test-global")];
    let mut msg = message(1, "Ann", "hello");
    msg.author.bot = true;
    assert!(matches!(
        decide(msg, &dir, &label()),
        Decision::AutomatedAuthor
    ));
}

#[test]
fn non_broadcast_channel_skipped() {
    let dir = vec![named(5, "general"), named(1, "test-global")];
    let msg = message(5, "Ann", "hi");
    assert!(matches!(decide(msg, &dir, &label()), Decision::NotBroadcast));
}

#[test]
fn unknown_channel_reported() {
    let dir = vec![named(1, "test-global")];
    let msg = message(99, "Ann", "hello");
    assert!(matches!(
        decide(msg, &dir, &label()),
        Decision::ChannelNotFound
    ));
}

#[test]
fn nameless_channel_not_broadcast() {
    let dir = vec![Channel { id: 4, name: None }, named(1, "test-global")];
    let msg = message(4, "Ann", "hello");
    assert!(matches!(decide(msg, &dir, &label()), Decision::NotBroadcast));
}

#[test]
fn targets_exclude_source_and_count() {
    let dir = vec![
        named(1, "test-global"),
        named(5, "general"),
        named(2, "test-global"),
        Channel { id: 6, name: None },
        named(3, "test-global"),
    ];
    let msg = message(2, "Ann", "hello");
    match decide(msg, &dir, &label()) {
        Decision::Relay(plan) => {
            assert_eq!(plan.targets, vec![1, 3]);
        }
        _ => panic!("expected a relay plan"),
    }
}

#[test]
fn empty_target_list_is_not_an_error() {
    let dir = vec![named(1, "test-global"), named(5, "general")];
    let msg = message(1, "Ann", "hello");
    match decide(msg, &dir, &label()) {
        Decision::Relay(plan) => {
            assert!(plan.targets.is_empty());
            let run = RelayRun::start(plan);
            assert_eq!(run.next_target(), None);
            assert!(run.attempts.is_empty());
        }
        _ => panic!("expected a relay plan"),
    }
}

#[test]
fn run_attempts_one_per_target() {
    let plan = RelayPlan {
        message: message(1, "Ann", "hello"),
        targets: vec![2, 3, 4],
    };
    let mut run = RelayRun::start(plan);
    let mut seen = Vec::new();
    while let Some(target) = run.next_target() {
        seen.push(target);
        run.record(TargetOutcome::Delivered);
    }
    assert_eq!(seen, vec![2, 3, 4]);
    assert_eq!(run.attempts.len(), 3);
    for (i, attempt) in run.attempts.iter().enumerate() {
        assert_eq!(attempt.target, run.targets[i]);
        assert_eq!(attempt.outcome, TargetOutcome::Delivered);
    }
}

#[test]
fn failure_isolation_continues_after_failure() {
    let plan = RelayPlan {
        message: message(1, "Ann", "hello"),
        targets: vec![2, 3],
    };
    let mut run = RelayRun::start(plan);
    assert_eq!(run.next_target(), Some(2));
    run.record(TargetOutcome::ResolveFailed);
    // Target 3 is still presented after target 2 failed.
    assert_eq!(run.next_target(), Some(3));
    run.record(TargetOutcome::SendFailed);
    assert_eq!(run.next_target(), None);
    assert_eq!(run.attempts.len(), 2);
    assert_eq!(run.attempts[0].target, 2);
    assert_eq!(run.attempts[0].outcome, TargetOutcome::ResolveFailed);
    assert_eq!(run.attempts[1].target, 3);
    assert_eq!(run.attempts[1].outcome, TargetOutcome::SendFailed);
}

#[test]
fn select_proxy_reuses_existing() {
    let existing = vec![
        proxy(10, 2, Some("logger"), Some("tok-a")),
        proxy(11, 2, Some("test-global"), Some("tok-b")),
        proxy(12, 2, Some("test-global"), Some("tok-c")),
    ];
    match select_proxy(&existing, &label()) {
        Resolution::UseExisting(p) => {
            // First match wins: identity 11, not 12.
            assert_eq!(p.id, 11);
            assert_eq!(p.token.as_deref(), Some("tok-b"));
        }
        Resolution::CreateNew => panic!("must not create a second identity"),
    }
}

#[test]
fn select_proxy_creates_when_absent() {
    let existing = vec![
        proxy(10, 2, Some("logger"), Some("tok-a")),
        proxy(11, 2, None, Some("tok-b")),
    ];
    assert!(matches!(
        select_proxy(&existing, &label()),
        Resolution::CreateNew
    ));
    assert!(matches!(
        select_proxy(&Vec::new(), &label()),
        Resolution::CreateNew
    ));
}

#[test]
fn payload_fidelity() {
    let a = author("Ann", false, None);
    let content = "hello, world".to_string();
    let p = build_payload(&a, &content);
    assert_eq!(p.username, "Ann");
    assert_eq!(p.content, "hello, world");
    assert_eq!(p.avatar_url, None);
}

#[test]
fn avatar_url_derivation() {
    let a = Author {
        id: 123,
        name: "Ann".to_string(),
        bot: false,
        avatar: Some("a1b2c3".to_string()),
    };
    let p = build_payload(&a, &"hi".to_string());
    assert_eq!(
        p.avatar_url.as_deref(),
        Some("https://cdn.discordapp.com/avatars/123/a1b2c3.png")
    );
}

#[test]
fn decimal_rendering_exact() {
    assert_eq!(u64_decimal(0), "0");
    assert_eq!(u64_decimal(7), "7");
    assert_eq!(u64_decimal(10), "10");
    assert_eq!(u64_decimal(105), "105");
    assert_eq!(u64_decimal(u64::MAX), "18446744073709551615");
}

#[test]
fn build_send_passes_payload() {
    let p = Payload {
        username: "Ann".to_string(),
        content: "hello".to_string(),
        avatar_url: Some("https://cdn.discordapp.com/avatars/77/x.png".to_string()),
    };
    let identity = proxy(11, 2, Some("test-global"), Some("tok-b"));
    let req = build_send(&p, &identity).expect("token is present");
    assert_eq!(req.identity_id, 11);
    assert_eq!(req.token, "tok-b");
    assert_eq!(req.username, "Ann");
    assert_eq!(req.content, "hello");
    assert_eq!(
        req.avatar_url.as_deref(),
        Some("https://cdn.discordapp.com/avatars/77/x.png")
    );
}

#[test]
fn build_send_missing_token() {
    let p = Payload {
        username: "Ann".to_string(),
        content: "hello".to_string(),
        avatar_url: None,
    };
    let identity = proxy(11, 2, Some("test-global"), None);
    assert!(matches!(
        build_send(&p, &identity),
        Err(ForwardError::MissingToken)
    ));
}

#[test]
fn stream_error_actions() {
    assert_eq!(on_stream_error(true), StreamAction::Halt);
    assert_eq!(on_stream_error(false), StreamAction::AwaitNext);
}

#[test]
fn scenario_relay_between_two_broadcast_channels() {
    // #general is not a broadcast channel: zero forwards.
    let dir = vec![
        named(9, "general"),
        named(1, "test-global"),
        named(2, "test-global"),
    ];
    let ordinary = message(9, "Ann", "hi");
    assert!(matches!(
        decide(ordinary, &dir, &label()),
        Decision::NotBroadcast
    ));

    // "hello" posted in channel 1 by Ann: one forward, to channel 2.
    let msg = message(1, "Ann", "hello");
    let plan = match decide(msg, &dir, &label()) {
        Decision::Relay(plan) => plan,
        _ => panic!("expected a relay plan"),
    };
    assert_eq!(plan.targets, vec![2]);
    let mut run = RelayRun::start(plan);
    assert_eq!(run.payload.username, "Ann");
    assert_eq!(run.payload.content, "hello");

    // Channel 2 has no labeled identity yet: one is created, bound to
    // channel 2 and labeled "test-global".
    let before = vec![proxy(20, 2, Some("logger"), Some("tok-x"))];
    assert!(matches!(
        select_proxy(&before, &label()),
        Resolution::CreateNew
    ));
    let created = proxy(21, 2, Some("test-global"), Some("tok-y"));
    let req = build_send(&run.payload, &created).expect("token is present");
    assert_eq!(req.username, "Ann");
    assert_eq!(req.content, "hello");
    assert_eq!(req.identity_id, 21);
    run.record(TargetOutcome::Delivered);
    assert_eq!(run.next_target(), None);

    // A second message shortly after reuses the created identity instead
    // of making a new one.
    let after = vec![
        proxy(20, 2, Some("logger"), Some("tok-x")),
        proxy(21, 2, Some("test-global"), Some("tok-y")),
    ];
    match select_proxy(&after, &label()) {
        Resolution::UseExisting(p) => assert_eq!(p.id, 21),
        Resolution::CreateNew => panic!("must reuse the existing identity"),
    }
}
