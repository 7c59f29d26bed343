use intent_launch::chain::{chain_for, LaunchStrategy};
use intent_launch::dispatch::{dispatch_scripted, DispatchSession, FailureKind, LaunchOutcome};
use intent_launch::intent::Intent;
use intent_launch::platform::Platform;

fn whatsapp_intent() -> Intent {
    Intent::OpenWhatsApp {
        phone: String::from("+1 555-0100"),
        message: Some(String::from("hello there")),
    }
}

fn fail(msg: &str) -> LaunchOutcome {
    LaunchOutcome::Failed {
        message: String::from(msg),
    }
}

#[test]
fn whatsapp_stops_after_first_success() {
    // Outcomes scripted per tier: tier 1 fails, tier 2 succeeds; tier 3
    // must never run.
    let outcomes = vec![fail("desktop app missing"), LaunchOutcome::Success, fail("unused")];
    let (attempted, result) = dispatch_scripted(&whatsapp_intent(), Platform::Linux, &outcomes);
    assert_eq!(attempted, 2);
    assert!(result.is_ok());
}

#[test]
fn whatsapp_succeeds_on_last_tier() {
    let outcomes = vec![fail("no desktop app"), fail("no browser"), LaunchOutcome::Success];
    let (attempted, result) = dispatch_scripted(&whatsapp_intent(), Platform::Linux, &outcomes);
    assert_eq!(attempted, 3);
    assert!(result.is_ok());
}

#[test]
fn whatsapp_aggregates_one_reason_per_tier() {
    let outcomes = vec![
        fail("desktop app not installed"),
        fail("no browser available"),
        fail("spawn failed, binary missing"),
    ];
    let (attempted, result) = dispatch_scripted(&whatsapp_intent(), Platform::Windows, &outcomes);
    assert_eq!(attempted, 3);
    let err = result.unwrap_err();
    assert_eq!(err.failures.len(), 3);
    assert_eq!(err.failures[0].tier, 1);
    assert_eq!(err.failures[0].kind, FailureKind::HandoffFailed);
    assert_eq!(err.failures[0].message, "desktop app not installed");
    assert_eq!(err.failures[1].tier, 2);
    assert_eq!(err.failures[1].kind, FailureKind::HandoffFailed);
    assert_eq!(err.failures[1].message, "no browser available");
    assert_eq!(err.failures[2].tier, 3);
    assert_eq!(err.failures[2].kind, FailureKind::SpawnFailed);
    assert_eq!(err.failures[2].message, "spawn failed, binary missing");
}

#[test]
fn single_tier_chain_fails_with_one_reason() {
    let intent = Intent::OpenUrl {
        url: String::from("https://example.com"),
    };
    let outcomes = vec![fail("handoff rejected")];
    let (attempted, result) = dispatch_scripted(&intent, Platform::MacOS, &outcomes);
    assert_eq!(attempted, 1);
    let err = result.unwrap_err();
    assert_eq!(err.failures.len(), 1);
    assert_eq!(err.failures[0].tier, 1);
    assert_eq!(err.failures[0].message, "handoff rejected");
}

#[test]
fn single_tier_chain_succeeds_immediately() {
    let intent = Intent::OpenPath {
        path: String::from("/tmp"),
    };
    let outcomes = vec![LaunchOutcome::Success];
    let (attempted, result) = dispatch_scripted(&intent, Platform::Unknown, &outcomes);
    assert_eq!(attempted, 1);
    assert!(result.is_ok());
}

#[test]
fn session_walks_whatsapp_tiers_in_order() {
    let intent = whatsapp_intent();
    let mut session = DispatchSession::new(&intent, Platform::MacOS);
    let chain = chain_for(&intent, Platform::MacOS);
    assert_eq!(chain.len(), 3);

    // Tier 1: the native-app link.
    match session.next_strategy() {
        Some(LaunchStrategy::OpenUrlPrimitive { url }) => {
            assert!(url.starts_with("whatsapp://send?phone=15550100"));
        }
        other => panic!("unexpected tier 1 strategy: {:?}", other),
    }
    session.record_outcome(fail("tier one failed"));

    // Tier 2: the web link.
    match session.next_strategy() {
        Some(LaunchStrategy::OpenUrlPrimitive { url }) => {
            assert!(url.starts_with("https://wa.me/15550100"));
        }
        other => panic!("unexpected tier 2 strategy: {:?}", other),
    }
    session.record_outcome(LaunchOutcome::Success);

    // The session is finished; tier 3 is never offered.
    assert!(session.next_strategy().is_none());
    assert!(session.finish().is_ok());
}

#[test]
fn session_offers_spawn_as_third_tier() {
    let intent = whatsapp_intent();
    let mut session = DispatchSession::new(&intent, Platform::Windows);
    session.record_outcome(fail("one"));
    session.record_outcome(fail("two"));
    match session.next_strategy() {
        Some(LaunchStrategy::SpawnProgram { program, args }) => {
            assert_eq!(program, "cmd");
            assert_eq!(args.len(), 3);
            assert_eq!(args[0], "/C");
            assert_eq!(args[1], "start");
            assert!(args[2].starts_with("https://wa.me/15550100"));
        }
        other => panic!("unexpected tier 3 strategy: {:?}", other),
    }
    session.record_outcome(fail("three"));
    assert!(session.next_strategy().is_none());
    let err = session.finish().unwrap_err();
    assert_eq!(err.failures.len(), 3);
}
