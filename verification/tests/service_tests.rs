use argon1d::config::{default_delay, default_poll, Config, ConfigError};
use argon1d::message::Message;
use argon1d::service::{acceptor_step, poll_step, run_polls, AcceptorAction, ServiceLock, StartError};

#[test]
fn default_config_values() {
    let cfg = Config::default();
    assert_eq!(cfg.poll_time, 5);
    assert_eq!(cfg.slow_delay, 10);
    assert_eq!(cfg.fan, vec![(55, 10), (60, 55), (65, 100)]);
    assert_eq!(default_poll(), 5);
    assert_eq!(default_delay(), 10);
}

#[test]
fn config_accepts_valid_table() {
    let cfg = Config::new(7, 20, vec![(50, 0), (60, 100)]).unwrap();
    assert_eq!(cfg.poll_time, 7);
    assert_eq!(cfg.slow_delay, 20);
    assert_eq!(cfg.fan, vec![(50, 0), (60, 100)]);
}

#[test]
fn config_rejects_speed_above_limit() {
    let r = Config::new(5, 10, vec![(50, 101)]);
    assert_eq!(r.unwrap_err(), ConfigError::ConfigInvalid);
}

#[test]
fn config_rejects_repeated_temperature_key() {
    let r = Config::new(5, 10, vec![(50, 10), (60, 20), (50, 30)]);
    assert_eq!(r.unwrap_err(), ConfigError::ConfigInvalid);
}

#[test]
fn poll_step_is_idempotent_at_target() {
    let cfg = Config::default();
    let o = poll_step(&cfg, 55, 63);
    assert_eq!(o.target, 55);
    assert_eq!(o.command, None);
    assert!(!o.delayed);
    assert_eq!(o.observed, 55);
}

#[test]
fn poll_step_raise_commits_without_delay() {
    let cfg = Config::default();
    let o = poll_step(&cfg, 10, 63);
    assert_eq!(o.target, 55);
    assert!(!o.delayed);
    assert_eq!(o.delay_before_commit, 0);
    assert_eq!(o.command, Some(Message::Fan(55)));
    assert_eq!(o.observed, 55);
}

#[test]
fn poll_step_slowdown_waits_one_cooldown() {
    let cfg = Config::default();
    let o = poll_step(&cfg, 55, 58);
    assert_eq!(o.target, 10);
    assert!(o.delayed);
    assert_eq!(o.delay_before_commit, cfg.slow_delay);
    assert_eq!(o.command, Some(Message::Fan(10)));
    assert_eq!(o.observed, 55);
}

#[test]
fn poll_run_scenario_holds_slowdown_through_cooldown() {
    let cfg = Config::default();
    let readings = vec![50, 58, 63, 58, 50];
    let outs = run_polls(&cfg, 0, &readings);
    let observed: Vec<u8> = outs.iter().map(|o| o.observed).collect();
    assert_eq!(observed, vec![0, 10, 55, 55, 10]);
    let targets: Vec<u8> = outs.iter().map(|o| o.target).collect();
    assert_eq!(targets, vec![0, 10, 55, 10, 0]);
    assert_eq!(outs[0].command, None);
    assert_eq!(outs[1].command, Some(Message::Fan(10)));
    assert_eq!(outs[2].command, Some(Message::Fan(55)));
    assert_eq!(outs[3].command, Some(Message::Fan(10)));
    assert!(outs[3].delayed);
    assert_eq!(outs[3].delay_before_commit, 10);
    assert!(!outs[1].delayed);
    assert!(!outs[2].delayed);
}

#[test]
fn acceptor_applies_fan_and_stops_on_stop() {
    assert_eq!(acceptor_step(Message::Fan(30)), AcceptorAction::Apply(30));
    assert_eq!(acceptor_step(Message::Stop), AcceptorAction::Shutdown);
}

#[test]
fn double_start_refused_then_allowed_after_shutdown() {
    let mut lock = ServiceLock::new();
    assert_eq!(lock.acquire(), Ok(()));
    assert_eq!(lock.acquire(), Err(StartError::AlreadyRunning));
    lock.release();
    assert_eq!(lock.acquire(), Ok(()));
    lock.release();
}
