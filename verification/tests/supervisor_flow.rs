use linkstate::credentials::Credentials;
use linkstate::supervisor::{
    Action, Event, LinkState, Supervisor, MONITOR_PERIOD_MS, RETRY_DELAY_MS,
};

fn started_supervisor() -> Supervisor {
    let mut sup = Supervisor::new(Credentials {
        ssid: String::from("LY-TX"),
        password: String::from("a1234567890"),
    });
    let actions = sup.step(Event::Started);
    assert_eq!(actions, vec![Action::LedOff, Action::StartScan]);
    assert_eq!(sup.link, LinkState::Scanning);
    sup
}

#[test]
fn three_failed_connects_retry_with_fixed_pause() {
    // Connect fails three times in a row: each failure asks for the fixed
    // pause, the supervisor goes back to scanning, the health flag stays
    // down and no readiness token is sent until a connect finally succeeds.
    let mut sup = started_supervisor();
    for _ in 0..3 {
        let actions = sup.step(Event::ScanComplete);
        assert_eq!(actions, vec![Action::StartConnect]);
        let actions = sup.step(Event::ConnectFailed);
        assert_eq!(actions, vec![Action::Delay(RETRY_DELAY_MS)]);
        assert_eq!(sup.link, LinkState::Reconnecting);
        assert!(!sup.health);
        assert!(!sup.channel.occupied);
        let actions = sup.step(Event::RetryElapsed);
        assert_eq!(actions, vec![Action::LedOff, Action::StartScan]);
        assert_eq!(sup.link, LinkState::Scanning);
        assert!(!sup.health);
        assert!(!sup.channel.occupied);
    }
    // The fourth attempt succeeds and only now is the token published.
    sup.step(Event::ScanComplete);
    let actions = sup.step(Event::ConnectSucceeded);
    assert_eq!(actions, vec![Action::AwaitAddress]);
    let actions = sup.step(Event::AddressObtained);
    assert_eq!(actions, vec![Action::PublishToken, Action::CheckLink]);
    assert!(sup.channel.occupied);
    assert_eq!(sup.link, LinkState::Monitoring);
}

#[test]
fn health_follows_liveness_checks() {
    // The flag comes up only with a successful liveness check in the
    // monitoring phase, and goes down the moment a check sees the link lost.
    let mut sup = started_supervisor();
    assert!(!sup.health);
    sup.step(Event::ScanComplete);
    assert!(!sup.health);
    sup.step(Event::ConnectSucceeded);
    assert!(!sup.health);
    sup.step(Event::AddressObtained);
    assert!(!sup.health);
    let actions = sup.step(Event::LinkAlive);
    assert!(sup.health);
    assert_eq!(
        actions,
        vec![Action::Delay(MONITOR_PERIOD_MS), Action::CheckLink]
    );
    sup.step(Event::LinkAlive);
    assert!(sup.health);
    let actions = sup.step(Event::LinkLost);
    assert!(!sup.health);
    assert_eq!(actions, vec![Action::LedOff]);
    assert_eq!(sup.link, LinkState::Reconnecting);
}

#[test]
fn one_fetch_cycle_per_token_and_no_second_until_reconnect() {
    // Connected, address obtained, one token sent; the consumer drains it
    // for one fetch cycle; then the link drops. The flag goes down within
    // one monitoring step and no second token appears until reconnection
    // completes.
    let mut sup = started_supervisor();
    sup.step(Event::ScanComplete);
    sup.step(Event::ConnectSucceeded);
    let actions = sup.step(Event::AddressObtained);
    assert_eq!(actions, vec![Action::PublishToken, Action::CheckLink]);
    assert!(sup.channel.occupied);

    // The consumer takes the token and performs its one bounded fetch cycle.
    assert!(sup.channel.try_receive());
    assert!(!sup.channel.occupied);

    sup.step(Event::LinkAlive);
    assert!(sup.health);

    // The link drops: the next liveness check flips the flag at once.
    sup.step(Event::LinkLost);
    assert!(!sup.health);
    assert!(!sup.channel.occupied);

    // All the way back through scan and connect, still no token.
    sup.step(Event::RetryElapsed);
    assert!(!sup.channel.occupied);
    sup.step(Event::ScanComplete);
    assert!(!sup.channel.occupied);
    sup.step(Event::ConnectSucceeded);
    assert!(!sup.channel.occupied);

    // Reconnection completes: exactly now the second token is sent.
    let actions = sup.step(Event::AddressObtained);
    assert_eq!(actions, vec![Action::PublishToken, Action::CheckLink]);
    assert!(sup.channel.occupied);
}

#[test]
fn publish_suspends_while_previous_token_undelivered() {
    // The first token is still in the slot when the next connection cycle
    // reaches the publish: the publish stays suspended (no overwrite, no
    // second token) until the consumer drains the slot.
    let mut sup = started_supervisor();
    sup.step(Event::ScanComplete);
    sup.step(Event::ConnectSucceeded);
    sup.step(Event::AddressObtained);
    assert!(sup.channel.occupied);
    sup.step(Event::LinkLost);
    sup.step(Event::RetryElapsed);
    sup.step(Event::ScanComplete);
    sup.step(Event::ConnectSucceeded);
    let actions = sup.step(Event::AddressObtained);
    assert_eq!(actions, vec![]);
    assert_eq!(sup.link, LinkState::Publishing);

    // The consumer finally drains the first token; the suspended publish
    // completes and monitoring resumes.
    assert!(sup.channel.try_receive());
    let actions = sup.step(Event::SlotDrained);
    assert_eq!(actions, vec![Action::PublishToken, Action::CheckLink]);
    assert_eq!(sup.link, LinkState::Monitoring);
    assert!(sup.channel.occupied);
}

#[test]
fn scan_and_address_failures_are_retried_like_failed_connects() {
    let mut sup = started_supervisor();
    let actions = sup.step(Event::ScanFailed);
    assert_eq!(actions, vec![Action::Delay(RETRY_DELAY_MS)]);
    assert_eq!(sup.link, LinkState::Reconnecting);
    sup.step(Event::RetryElapsed);
    sup.step(Event::ScanComplete);
    sup.step(Event::ConnectSucceeded);
    let actions = sup.step(Event::AddressWaitFailed);
    assert_eq!(actions, vec![Action::Delay(RETRY_DELAY_MS)]);
    assert_eq!(sup.link, LinkState::Reconnecting);
    assert!(!sup.health);
    assert!(!sup.channel.occupied);
}

#[test]
fn mismatched_events_change_nothing() {
    let mut sup = started_supervisor();
    let actions = sup.step(Event::LinkLost);
    assert_eq!(actions, vec![]);
    assert_eq!(sup.link, LinkState::Scanning);
    assert!(!sup.health);
    assert!(!sup.channel.occupied);
}
