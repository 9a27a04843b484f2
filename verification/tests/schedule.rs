use chrono::{DateTime, Duration, Local, TimeZone, Timelike, Utc};

use yuuka::clock::Instant;
use yuuka::schedule::{
    run_cron, start_loop, CronService, LoopAction, LoopEvent, LoopState, Schedule,
};

const SECOND: u128 = 1_000_000_000;

fn instant<T: TimeZone>(t: &DateTime<T>) -> Instant {
    Instant { secs: t.timestamp(), nanos: t.timestamp_subsec_nanos() }
}

fn at(secs: i64, nanos: u32) -> Instant {
    Instant { secs, nanos }
}

#[test]
fn daily_delay_is_within_a_day() {
    let now = Utc::now();
    let mut next = now
        .with_hour(8)
        .and_then(|t| t.with_minute(0))
        .and_then(|t| t.with_second(0))
        .and_then(|t| t.with_nanosecond(0))
        .expect("08:00");
    if next <= now {
        next = next + Duration::days(1);
    }
    let d = Schedule::DailyAt { hour: 8, minute: 0 }
        .delay_from(&instant(&now), Some(instant(&next)));
    assert!(d <= (24 * 60 * 60 + 1) * SECOND);
}

#[test]
fn fixed_secs_delay_is_exact() {
    let now = Local::now();
    assert_eq!(
        Schedule::FixedSecs(300).delay_from(&instant(&now), None),
        300 * SECOND
    );
}

#[test]
fn every_minute_delay_is_under_a_minute() {
    let now = Local::now();
    let secs = now.timestamp();
    let next = at(secs - secs.rem_euclid(60) + 60, 0);
    assert!(Schedule::EveryMinute.delay_from(&instant(&now), Some(next)) <= 60 * SECOND);
}

struct CountingService {
    on_start: bool,
}

impl CronService for CountingService {
    fn name(&self) -> &'static str {
        "counting"
    }
    fn schedule(&self) -> Schedule {
        Schedule::EveryMinute
    }
    fn run_on_start(&self) -> bool {
        self.on_start
    }
}

struct PlainService;

impl CronService for PlainService {
    fn name(&self) -> &'static str {
        "plain"
    }
    fn schedule(&self) -> Schedule {
        Schedule::Hourly
    }
}

/// Runs the loop of a service that is cancelled in its first wait, and counts the runs.
fn ticks_until_cancelled(svc: &dyn CronService) -> usize {
    let schedule = svc.schedule();
    let now = at(0, 0);
    let mut ticks = 0;
    let (mut state, mut action) = start_loop(&schedule, svc.run_on_start(), &now, None);
    loop {
        let event = match action {
            LoopAction::Tick => {
                ticks += 1;
                LoopEvent::Ticked { now, next: None }
            }
            LoopAction::Wait(_) => LoopEvent::Cancelled,
            LoopAction::Stop => return ticks,
        };
        (state, action) = run_cron(&schedule, state, event);
    }
}

#[test]
fn run_cron_ticks_on_start_then_exits_on_cancel() {
    assert_eq!(ticks_until_cancelled(&CountingService { on_start: true }), 1);
}

#[test]
fn run_cron_without_on_start_does_not_tick_before_cancel() {
    assert_eq!(ticks_until_cancelled(&CountingService { on_start: false }), 0);
}

#[test]
fn services_run_on_start_unless_they_say_otherwise() {
    assert!(PlainService.run_on_start());
    assert_eq!(ticks_until_cancelled(&PlainService), 1);
}

#[test]
fn cron_expressions_are_exact() {
    let expr = |s: Schedule| s.cron_expr();
    assert_eq!(expr(Schedule::EveryMinute).as_deref(), Some("* * * * *"));
    assert_eq!(expr(Schedule::Hourly).as_deref(), Some("0 * * * *"));
    assert_eq!(
        expr(Schedule::DailyAt { hour: 23, minute: 5 }).as_deref(),
        Some("5 23 * * *")
    );
    assert_eq!(expr(Schedule::Cron("1 2 3 4 5")).as_deref(), Some("1 2 3 4 5"));
    assert_eq!(
        expr(Schedule::CronExpr("*/20 * * * *".to_owned())).as_deref(),
        Some("*/20 * * * *")
    );
    assert_eq!(expr(Schedule::FixedSecs(5)), None);
    let copy = Schedule::DailyAt { hour: 1, minute: 2 }.clone();
    assert_eq!(copy.cron_expr().as_deref(), Some("2 1 * * *"));
}

#[test]
fn waits_are_exact() {
    let now = at(100, 500_000_000);
    let wait = |next| Schedule::Hourly.delay_from(&now, next);
    assert_eq!(wait(Some(at(103, 250_000_000))), 2_750_000_000);
    assert_eq!(wait(Some(now)), 0);
    assert_eq!(wait(Some(at(100, 499_999_999))), SECOND);
    assert_eq!(wait(None), 60 * SECOND);
    assert_eq!(Schedule::FixedSecs(7).delay_from(&now, Some(at(0, 0))), 7 * SECOND);
}

#[test]
fn loop_alternates_between_runs_and_waits() {
    let schedule = Schedule::FixedSecs(2);
    let ticked = LoopEvent::Ticked { now: at(0, 0), next: None };
    let (state, action) = run_cron(&schedule, LoopState::Ticking, ticked);
    assert_eq!((state, action), (LoopState::Waiting, LoopAction::Wait(2 * SECOND)));
    let (state, action) = run_cron(&schedule, state, LoopEvent::Elapsed);
    assert_eq!((state, action), (LoopState::Ticking, LoopAction::Tick));
    assert_eq!(
        run_cron(&schedule, state, LoopEvent::Elapsed),
        (LoopState::Stopped, LoopAction::Stop)
    );
    for event in [ticked, LoopEvent::Elapsed, LoopEvent::Cancelled] {
        assert_eq!(
            run_cron(&schedule, LoopState::Stopped, event),
            (LoopState::Stopped, LoopAction::Stop)
        );
    }
}
