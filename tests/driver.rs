use net_executor::drive::{Command, Driver, Event, BUSY_POLL_LIMIT_MS};
use net_executor::time::{Duration, Instant};

fn at(millis: i64) -> Instant {
    Instant::from_millis(millis)
}

/// Starts a run and brings it to its first poll of the task.
fn started(timeout: Option<Duration>, start: Instant) -> Driver {
    let mut d = Driver::new(timeout);
    assert!(!d.polling_mode());
    assert_eq!(d.step(Event::Done), Command::SetPollingMode(true));
    assert!(d.polling_mode());
    assert_eq!(d.step(Event::Done), Command::ReadClock);
    assert_eq!(d.step(Event::Clock(start)), Command::PollTask);
    d
}

#[test]
fn completes_immediately_without_deadline() {
    let mut d = started(None, at(1000));
    assert_eq!(d.step(Event::TaskPolled { ready: true }), Command::SetPollingMode(false));
    assert_eq!(d.step(Event::Done), Command::Complete);
    assert!(d.is_finished());
    assert!(!d.polling_mode());
    assert_eq!(d.step(Event::Done), Command::Complete);
}

#[test]
fn zero_timeout_times_out_without_blocking() {
    let mut d = started(Some(Duration::from_millis(0)), at(1000));
    let mut seen = Vec::new();
    seen.push(d.step(Event::TaskPolled { ready: false }));
    seen.push(d.step(Event::Clock(at(1000))));
    seen.push(d.step(Event::Done));
    assert_eq!(seen, vec![Command::ReadClock, Command::SetPollingMode(false), Command::TimedOut]);
    assert!(!d.polling_mode());
    assert!(d.is_finished());
}

#[test]
fn deadline_busy_polls_until_it_passes() {
    let mut d = started(Some(Duration::from_millis(5)), at(1000));
    for t in [1001, 1002, 1004] {
        assert_eq!(d.step(Event::TaskPolled { ready: false }), Command::ReadClock);
        let c = d.step(Event::Clock(at(t)));
        assert_eq!(c, Command::PollTask);
        assert!(d.polling_mode());
    }
    assert_eq!(d.step(Event::TaskPolled { ready: false }), Command::ReadClock);
    assert_eq!(d.step(Event::Clock(at(1005))), Command::SetPollingMode(false));
    assert_eq!(d.step(Event::Done), Command::TimedOut);
}

#[test]
fn deadline_run_completes_before_it_passes() {
    let mut d = started(Some(Duration::from_millis(5)), at(0));
    assert_eq!(d.step(Event::TaskPolled { ready: false }), Command::ReadClock);
    assert_eq!(d.step(Event::Clock(at(4))), Command::PollTask);
    assert_eq!(d.step(Event::TaskPolled { ready: true }), Command::SetPollingMode(false));
    assert_eq!(d.step(Event::Done), Command::Complete);
}

#[test]
fn long_network_delay_parks_the_thread() {
    let mut d = started(None, at(0));
    assert_eq!(d.step(Event::TaskPolled { ready: false }), Command::ReadClock);
    assert_eq!(d.step(Event::Clock(at(3))), Command::QueryNetworkDelay(at(3)));
    let delay = Some(Duration::from_millis(500));
    assert_eq!(d.step(Event::NetworkDelay(delay)), Command::ConsumeWake);
    assert_eq!(d.step(Event::WakeConsumed { was_pending: false }), Command::SetPollingMode(false));
    assert!(!d.polling_mode());
    assert_eq!(d.step(Event::Done), Command::Block(Some(500)));
    assert_eq!(d.step(Event::Done), Command::Yield);
    assert_eq!(d.step(Event::Done), Command::SetPollingMode(true));
    assert!(d.polling_mode());
    assert_eq!(d.step(Event::Done), Command::ClearWake);
    assert_eq!(d.step(Event::Done), Command::ReadClock);
    assert_eq!(d.step(Event::Clock(at(503))), Command::AdvanceNetwork(at(503)));
    assert_eq!(d.step(Event::Done), Command::PollTask);
}

#[test]
fn short_network_delay_busy_advances() {
    let mut d = started(None, at(0));
    let mut commands = Vec::new();
    for t in 1..20 {
        commands.push(d.step(Event::TaskPolled { ready: false }));
        commands.push(d.step(Event::Clock(at(t))));
        let c = d.step(Event::NetworkDelay(Some(Duration::from_millis(10))));
        assert_eq!(c, Command::AdvanceNetwork(at(t)));
        commands.push(c);
        commands.push(d.step(Event::Done));
    }
    assert!(commands.iter().all(|c| !matches!(c, Command::Block(_))));
    assert!(commands.iter().all(|c| *c != Command::ConsumeWake));
    assert_eq!(d.step(Event::TaskPolled { ready: true }), Command::SetPollingMode(false));
    assert_eq!(d.step(Event::Done), Command::Complete);
}

#[test]
fn delay_at_the_limit_is_busy() {
    let mut d = started(None, at(0));
    d.step(Event::TaskPolled { ready: false });
    d.step(Event::Clock(at(1)));
    let delay = Duration::from_millis(BUSY_POLL_LIMIT_MS);
    assert_eq!(d.step(Event::NetworkDelay(Some(delay))), Command::AdvanceNetwork(at(1)));
}

#[test]
fn delay_rounds_down_to_whole_milliseconds() {
    let mut d = started(None, at(0));
    d.step(Event::TaskPolled { ready: false });
    d.step(Event::Clock(at(1)));
    let delay = Duration::from_micros(100_999);
    assert_eq!(d.step(Event::NetworkDelay(Some(delay))), Command::AdvanceNetwork(at(1)));

    let mut d = started(None, at(0));
    d.step(Event::TaskPolled { ready: false });
    d.step(Event::Clock(at(1)));
    let delay = Duration::from_micros(101_000);
    assert_eq!(d.step(Event::NetworkDelay(Some(delay))), Command::ConsumeWake);
    d.step(Event::WakeConsumed { was_pending: false });
    assert_eq!(d.step(Event::Done), Command::Block(Some(101)));
}

#[test]
fn no_network_timer_blocks_without_limit() {
    let mut d = started(None, at(0));
    d.step(Event::TaskPolled { ready: false });
    d.step(Event::Clock(at(1)));
    assert_eq!(d.step(Event::NetworkDelay(None)), Command::ConsumeWake);
    assert_eq!(d.step(Event::WakeConsumed { was_pending: false }), Command::SetPollingMode(false));
    assert_eq!(d.step(Event::Done), Command::Block(None));
}

#[test]
fn pending_wake_skips_parking() {
    let mut d = started(None, at(0));
    d.step(Event::TaskPolled { ready: false });
    d.step(Event::Clock(at(1)));
    assert_eq!(d.step(Event::NetworkDelay(None)), Command::ConsumeWake);
    assert_eq!(d.step(Event::WakeConsumed { was_pending: true }), Command::PollTask);
    assert!(d.polling_mode());
}

#[test]
fn unexpected_event_repeats_the_command() {
    let mut d = started(None, at(0));
    assert_eq!(d.step(Event::Done), Command::PollTask);
    assert_eq!(d.step(Event::TaskPolled { ready: false }), Command::ReadClock);
    assert_eq!(d.step(Event::TaskPolled { ready: true }), Command::ReadClock);
    assert_eq!(d.step(Event::Clock(at(2))), Command::QueryNetworkDelay(at(2)));
}

#[test]
fn run_without_deadline_never_times_out() {
    let mut d = started(None, at(0));
    for t in 0..50 {
        assert_ne!(d.step(Event::TaskPolled { ready: false }), Command::TimedOut);
        assert_ne!(d.step(Event::Clock(at(1_000_000 * t))), Command::TimedOut);
        let delay = if t % 2 == 0 { Some(Duration::from_millis(1000)) } else { None };
        assert_eq!(d.step(Event::NetworkDelay(delay)), Command::ConsumeWake);
        assert_eq!(d.step(Event::WakeConsumed { was_pending: true }), Command::PollTask);
    }
    assert_eq!(d.step(Event::TaskPolled { ready: true }), Command::SetPollingMode(false));
    assert_eq!(d.step(Event::Done), Command::Complete);
}

#[test]
fn time_conversions() {
    assert_eq!(Duration::from_micros(100_999).total_millis(), 100);
    assert_eq!(Duration::from_millis(500).total_micros(), 500_000);
    assert_eq!(Instant::from_millis(-2).total_micros(), -2000);
    assert_eq!(Instant::from_micros(7).micros, 7);
}
