use crisp_status_reporter::{Action, Event, Interval, Phase, Schedule};

#[test]
fn interval_halves_to_the_nanosecond() {
    let half = Interval::from_secs(30).half();
    assert_eq!(half.as_secs(), 15);
    assert_eq!(half.subsec_nanos(), 0);

    let odd = Interval::from_secs(31).half();
    assert_eq!(odd.as_secs(), 15);
    assert_eq!(odd.subsec_nanos(), 500_000_000);

    let tiny = Interval::new(0, 3).half();
    assert_eq!(tiny.as_secs(), 0);
    assert_eq!(tiny.subsec_nanos(), 1);

    let largest = Interval::new(u64::MAX, 999_999_999).half();
    assert_eq!(largest.as_secs(), u64::MAX / 2);
    assert_eq!(largest.subsec_nanos(), 999_999_999);
}

fn sleep_secs(action: Action) -> u64 {
    match action {
        Action::Sleep(d) => {
            assert_eq!(d.subsec_nanos(), 0);
            d.as_secs()
        }
        Action::Report => panic!("expected a wait"),
    }
}

#[test]
fn failed_report_is_retried_after_half_interval() {
    for retry_ok in [true, false] {
        let (mut schedule, first) = Schedule::new(Interval::from_secs(30));
        assert_eq!(sleep_secs(first), 10);
        assert_eq!(schedule.step(Event::Slept), Action::Report);

        // Cycle start: the report fails.
        let wait = sleep_secs(schedule.step(Event::Reported(false)));
        assert_eq!(wait, 15);
        assert_eq!(schedule.phase, Phase::AwaitingRetry);
        assert_eq!(schedule.step(Event::Slept), Action::Report);
        assert_eq!(schedule.phase, Phase::Retrying);

        // The retry is not retried again, whatever its outcome.
        let rest = sleep_secs(schedule.step(Event::Reported(retry_ok)));
        assert_eq!(rest, 30);
        assert_eq!(schedule.phase, Phase::Resting);
        assert_eq!(schedule.step(Event::Slept), Action::Report);
        assert_eq!(schedule.phase, Phase::Reporting);
        assert_eq!(wait + rest, 45);
    }
}

#[test]
fn always_successful_endpoint_gets_one_report_per_interval() {
    let (mut schedule, first) = Schedule::new(Interval::from_secs(30));
    let mut clock: u64 = sleep_secs(first);
    let mut report_times = Vec::new();
    let mut action = schedule.step(Event::Slept);
    while report_times.len() < 5 {
        match action {
            Action::Report => {
                assert_ne!(schedule.phase, Phase::Retrying);
                report_times.push(clock);
                action = schedule.step(Event::Reported(true));
            }
            Action::Sleep(d) => {
                clock += d.as_secs();
                action = schedule.step(Event::Slept);
            }
        }
    }
    assert_eq!(report_times, vec![10, 40, 70, 100, 130]);
}

#[test]
fn unexpected_event_repeats_the_pending_action() {
    let (mut schedule, _) = Schedule::new(Interval::from_secs(30));
    assert_eq!(schedule.step(Event::Reported(true)), Action::Sleep(Interval::from_secs(10)));
    assert_eq!(schedule.phase, Phase::WarmingUp);
    assert_eq!(schedule.step(Event::Slept), Action::Report);
    assert_eq!(schedule.step(Event::Slept), Action::Report);
    assert_eq!(schedule.phase, Phase::Reporting);
}
