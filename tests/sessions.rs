use irssi_v5::errors::GatewayError;
use irssi_v5::sessions::{readiness_step, CreateStep, Manager, ReapAction, ReapEvent, Readiness};
use irssi_v5::terminal::SessionPolicy;

#[test]
fn concurrent_requests_spawn_once_and_share_port() {
    let mut m = Manager::new(7100, SessionPolicy::Ephemeral);
    assert_eq!(m.get_or_create("alice"), Ok(CreateStep::Spawn(7100)));
    assert_eq!(m.get_or_create("alice"), Ok(CreateStep::Pending));
    assert!(!m.is_active("alice"));
    assert_eq!(m.complete("alice"), Some(7100));
    assert_eq!(m.get_or_create("alice"), Ok(CreateStep::Existing(7100)));
    assert!(m.is_active("alice"));
    assert_eq!(m.active_count(), 1);
}

#[test]
fn users_get_distinct_ports() {
    let mut m = Manager::new(7100, SessionPolicy::Detached);
    assert_eq!(m.get_or_create("a"), Ok(CreateStep::Spawn(7100)));
    assert_eq!(m.get_or_create("b"), Ok(CreateStep::Spawn(7101)));
    assert_eq!(m.complete("b"), Some(7101));
    assert_eq!(m.complete("a"), Some(7100));
    let mut names = m.active_usernames();
    names.sort();
    assert_eq!(names, vec!["a".to_string(), "b".to_string()]);
    assert_eq!(m.policy(), SessionPolicy::Detached);
}

#[test]
fn reaper_removes_exited_session_and_frees_port() {
    let mut m = Manager::new(7100, SessionPolicy::Ephemeral);
    assert_eq!(m.get_or_create("bob"), Ok(CreateStep::Spawn(7100)));
    m.complete("bob");
    assert_eq!(m.reap("bob", 7100, ReapEvent::Busy), ReapAction::Continue);
    assert_eq!(m.reap("bob", 7100, ReapEvent::Running), ReapAction::Continue);
    assert!(m.is_active("bob"));
    assert_eq!(m.reap("bob", 7100, ReapEvent::Exited), ReapAction::Stop);
    assert!(!m.is_active("bob"));
    assert_eq!(m.active_count(), 0);
    assert_eq!(m.get_or_create("carol"), Ok(CreateStep::Spawn(7100)));
}

#[test]
fn reaper_stops_after_kill() {
    let mut m = Manager::new(7100, SessionPolicy::Ephemeral);
    m.get_or_create("bob").unwrap();
    m.complete("bob");
    assert_eq!(m.kill("bob"), Some(7100));
    assert_eq!(m.kill("bob"), None);
    assert_eq!(m.reap("bob", 7100, ReapEvent::Running), ReapAction::Stop);
    assert_eq!(m.get_or_create("dave"), Ok(CreateStep::Spawn(7100)));
}

#[test]
fn reaper_of_old_session_ignores_new_one() {
    let mut m = Manager::new(7100, SessionPolicy::Ephemeral);
    m.get_or_create("bob").unwrap();
    m.complete("bob");
    m.get_or_create("x").unwrap();
    m.kill("bob");
    m.get_or_create("bob").unwrap();
    assert_eq!(m.complete("bob"), Some(7100));
    assert_eq!(m.kill("x"), None);
    assert_eq!(m.abandon("x"), Some(7101));
    assert_eq!(m.reap("bob", 7101, ReapEvent::Exited), ReapAction::Stop);
    assert!(m.is_active("bob"));
}

#[test]
fn failed_spawn_releases_port() {
    let mut m = Manager::new(7100, SessionPolicy::Ephemeral);
    assert_eq!(m.get_or_create("eve"), Ok(CreateStep::Spawn(7100)));
    assert_eq!(m.abandon("eve"), Some(7100));
    assert_eq!(m.complete("eve"), None);
    assert!(!m.is_active("eve"));
    assert_eq!(m.get_or_create("eve"), Ok(CreateStep::Spawn(7100)));
}

#[test]
fn exhausted_pool_refuses_new_session() {
    let mut m = Manager::new(64536, SessionPolicy::Ephemeral);
    for i in 0..1000 {
        let name = format!("u{}", i);
        assert!(matches!(m.get_or_create(&name), Ok(CreateStep::Spawn(_))));
    }
    assert_eq!(m.get_or_create("late"), Err(GatewayError::PoolExhausted));
    assert_eq!(m.get_or_create("u3"), Ok(CreateStep::Pending));
}

#[test]
fn readiness_poll_decisions() {
    assert_eq!(readiness_step(true, 9000, 5000), Readiness::Ready);
    assert_eq!(readiness_step(false, 100, 5000), Readiness::Retry);
    assert_eq!(readiness_step(false, 5000, 5000), Readiness::TimedOut);
}
