//! When a resident service runs, and the loop that runs it.
use vstd::prelude::*;
use vstd::string::StringExecFns;

use crate::clock::Instant;
use crate::text::decimal_text;

verus! {

/// The wait in nanoseconds where the next time lies in the past already (one second).
pub const OVERDUE_WAIT: u128 = 1_000_000_000;

/// The wait in nanoseconds where no next time can be found (sixty seconds).
pub const UNSOLVED_WAIT: u128 = 60_000_000_000;

/// When a service runs.
#[derive(Debug)]
pub enum Schedule {
    /// Every minute.
    EveryMinute,
    /// At the start of every hour.
    Hourly,
    /// Every day at this local time.
    DailyAt {
        /// The hour.
        hour: u32,
        /// The minute.
        minute: u32,
    },
    /// By a fixed cron expression of five fields.
    Cron(&'static str),
    /// By a configured cron expression of five fields, which was checked when the settings
    /// were read.
    CronExpr(String),
    /// Every so many seconds, not aligned to the clock.
    FixedSecs(u64),
}

/// A schedule with its texts as characters.
pub enum ScheduleView {
    /// See [`Schedule::EveryMinute`].
    EveryMinute,
    /// See [`Schedule::Hourly`].
    Hourly,
    /// See [`Schedule::DailyAt`].
    DailyAt {
        /// The hour.
        hour: nat,
        /// The minute.
        minute: nat,
    },
    /// See [`Schedule::Cron`] and [`Schedule::CronExpr`].
    Cron(Seq<char>),
    /// See [`Schedule::FixedSecs`].
    FixedSecs(nat),
}

impl View for Schedule {
    type V = ScheduleView;

    open spec fn view(&self) -> ScheduleView {
        match self {
            Schedule::EveryMinute => ScheduleView::EveryMinute,
            Schedule::Hourly => ScheduleView::Hourly,
            Schedule::DailyAt { hour, minute } => ScheduleView::DailyAt {
                hour: *hour as nat,
                minute: *minute as nat,
            },
            Schedule::Cron(expr) => ScheduleView::Cron(expr@),
            Schedule::CronExpr(expr) => ScheduleView::Cron(expr@),
            Schedule::FixedSecs(secs) => ScheduleView::FixedSecs(*secs as nat),
        }
    }
}

impl ScheduleView {
    /// The cron expression of a schedule that is aligned to the clock.
    pub open spec fn expression(self) -> Option<Seq<char>> {
        match self {
            ScheduleView::EveryMinute => Some("* * * * *"@),
            ScheduleView::Hourly => Some("0 * * * *"@),
            ScheduleView::DailyAt { hour, minute } => Some(
                crate::text::decimal(minute) + " "@ + crate::text::decimal(hour) + " * * *"@,
            ),
            ScheduleView::Cron(expr) => Some(expr),
            ScheduleView::FixedSecs(_) => None,
        }
    }

    /// The nanoseconds to wait at `now`, where `next` is the next time that the cron
    /// expression names after `now`, if it names one.
    pub open spec fn wait(self, now: Instant, next: Option<Instant>) -> int {
        match (self, next) {
            (ScheduleView::FixedSecs(secs), _) => secs * crate::clock::SECOND_NANOS,
            (_, Some(at)) => if at.nanos_from(now) >= 0 {
                at.nanos_from(now)
            } else {
                OVERDUE_WAIT as int
            },
            (_, None) => UNSOLVED_WAIT as int,
        }
    }
}

impl Clone for Schedule {
    fn clone(&self) -> (r: Self)
        ensures
            r@ == self@,
    {
        match self {
            Schedule::EveryMinute => Schedule::EveryMinute,
            Schedule::Hourly => Schedule::Hourly,
            Schedule::DailyAt { hour, minute } => Schedule::DailyAt {
                hour: *hour,
                minute: *minute,
            },
            Schedule::Cron(expr) => Schedule::Cron(*expr),
            Schedule::CronExpr(expr) => Schedule::CronExpr(expr.clone()),
            Schedule::FixedSecs(secs) => Schedule::FixedSecs(*secs),
        }
    }
}

impl Schedule {
    /// The cron expression of a schedule that is aligned to the clock; none for a fixed
    /// interval.
    pub fn cron_expr(&self) -> (r: Option<String>)
        ensures
            crate::text::opt_text(r) == self@.expression(),
    {
        match self {
            Schedule::EveryMinute => Some("* * * * *".to_owned()),
            Schedule::Hourly => Some("0 * * * *".to_owned()),
            Schedule::DailyAt { hour, minute } => {
                let mut expr: String = decimal_text(*minute as u64);
                expr.append(" ");
                expr.append(decimal_text(*hour as u64).as_str());
                expr.append(" * * *");
                Some(expr)
            },
            Schedule::Cron(expr) => Some((*expr).to_owned()),
            Schedule::CronExpr(expr) => Some(expr.clone()),
            Schedule::FixedSecs(_) => None,
        }
    }

    /// The nanoseconds to wait at `now`, where `next` is the next time that the cron
    /// expression names after `now`, if it names one.
    pub fn delay_from(&self, now: &Instant, next: Option<Instant>) -> (r: u128)
        ensures
            r == self@.wait(*now, next),
    {
        match (self, next) {
            (Schedule::FixedSecs(secs), _) => *secs as u128 * 1_000_000_000u128,
            (_, Some(at)) => {
                let left: i128 = at.since(now);
                if left >= 0 {
                    left as u128
                } else {
                    OVERDUE_WAIT
                }
            },
            (_, None) => UNSOLVED_WAIT,
        }
    }
}

/// A resident service.
pub trait CronService {
    /// The name in log lines.
    fn name(&self) -> &'static str;

    /// When it runs.
    fn schedule(&self) -> Schedule;

    /// Whether it also runs once at the start, to catch up on what it missed.
    fn run_on_start(&self) -> (r: bool)
        default_ensures
            r,
    {
        true
    }
}

/// Where the loop of a service stands.
#[derive(Clone, Copy, Debug, PartialEq, Eq, Structural)]
pub enum LoopState {
    /// The service is running.
    Ticking,
    /// The loop waits for the next time.
    Waiting,
    /// The loop has ended.
    Stopped,
}

/// What happens to the loop of a service.
#[derive(Clone, Copy, Debug, PartialEq, Eq, Structural)]
pub enum LoopEvent {
    /// The service has run; what the clock says now, and the next time after that.
    Ticked {
        /// The time now.
        now: Instant,
        /// The next time that the cron expression names, if it names one.
        next: Option<Instant>,
    },
    /// The wait is over.
    Elapsed,
    /// The loop is to end.
    Cancelled,
}

/// What the loop of a service does next.
#[derive(Clone, Copy, Debug, PartialEq, Eq, Structural)]
pub enum LoopAction {
    /// Run the service.
    Tick,
    /// Wait this many nanoseconds, or until the loop is cancelled.
    Wait(u128),
    /// End.
    Stop,
}

/// The start of the loop: the service runs at once, or the loop waits.
pub open spec fn loop_start(
    schedule: ScheduleView,
    run_on_start: bool,
    now: Instant,
    next: Option<Instant>,
) -> (LoopState, LoopAction) {
    if run_on_start {
        (LoopState::Ticking, LoopAction::Tick)
    } else {
        (LoopState::Waiting, LoopAction::Wait(schedule.wait(now, next) as u128))
    }
}

/// The loop after an event: a run is followed by a wait, a wait by a run or, where the loop
/// was cancelled, by the end.
pub open spec fn loop_next(schedule: ScheduleView, state: LoopState, event: LoopEvent) -> (
    LoopState,
    LoopAction,
) {
    match (state, event) {
        (LoopState::Ticking, LoopEvent::Ticked { now, next }) => (
            LoopState::Waiting,
            LoopAction::Wait(schedule.wait(now, next) as u128),
        ),
        (LoopState::Waiting, LoopEvent::Elapsed) => (LoopState::Ticking, LoopAction::Tick),
        _ => (LoopState::Stopped, LoopAction::Stop),
    }
}

/// Starts the loop of a service.
pub fn start_loop(schedule: &Schedule, run_on_start: bool, now: &Instant, next: Option<Instant>) -> (r:
    (LoopState, LoopAction))
    ensures
        r == loop_start(schedule@, run_on_start, *now, next),
{
    if run_on_start {
        (LoopState::Ticking, LoopAction::Tick)
    } else {
        (LoopState::Waiting, LoopAction::Wait(schedule.delay_from(now, next)))
    }
}

/// Takes the loop of a service past an event.
pub fn run_cron(schedule: &Schedule, state: LoopState, event: LoopEvent) -> (r: (
    LoopState,
    LoopAction,
))
    ensures
        r == loop_next(schedule@, state, event),
{
    match (state, event) {
        (LoopState::Ticking, LoopEvent::Ticked { now, next }) => (
            LoopState::Waiting,
            LoopAction::Wait(schedule.delay_from(&now, next)),
        ),
        (LoopState::Waiting, LoopEvent::Elapsed) => (LoopState::Ticking, LoopAction::Tick),
        _ => (LoopState::Stopped, LoopAction::Stop),
    }
}

/// The state of the loop after a sequence of events.
pub open spec fn loop_after(schedule: ScheduleView, state: LoopState, events: Seq<LoopEvent>) ->
    LoopState
    decreases events.len(),
{
    if events.len() == 0 {
        state
    } else {
        loop_next(schedule, loop_after(schedule, state, events.drop_last()), events.last()).0
    }
}

/// Once it was cancelled the loop stays ended and runs nothing, whatever comes.
pub proof fn law_cancelled_loop_stays_ended(
    schedule: ScheduleView,
    state: LoopState,
    later: Seq<LoopEvent>,
    event: LoopEvent,
)
    ensures
        ({
            let ended = loop_next(schedule, state, LoopEvent::Cancelled).0;
            &&& loop_next(schedule, state, LoopEvent::Cancelled).1 == LoopAction::Stop
            &&& loop_after(schedule, ended, later) == LoopState::Stopped
            &&& loop_next(schedule, loop_after(schedule, ended, later), event).1
                == LoopAction::Stop
        }),
    decreases later.len(),
{
    if later.len() > 0 {
        law_cancelled_loop_stays_ended(schedule, state, later.drop_last(), event);
    }
}

/// Runs do not overlap: a run begins only out of a wait, and a wait begins only once the
/// run before has ended.
pub proof fn law_runs_do_not_overlap(schedule: ScheduleView, state: LoopState, event: LoopEvent)
    ensures
        loop_next(schedule, state, event).1 == LoopAction::Tick ==> state == LoopState::Waiting,
        loop_next(schedule, state, event).0 == LoopState::Waiting ==> event is Ticked,
        state == LoopState::Ticking && !(event is Ticked) ==> loop_next(schedule, state, event).1
            == LoopAction::Stop,
{
}

/// Where the next time is not before now the wait ends exactly at it; a schedule of fixed
/// seconds waits them whatever the clock says.
pub proof fn law_wait_is_exact(schedule: ScheduleView, now: Instant, next: Instant, secs: nat)
    ensures
        !(schedule is FixedSecs) && next.nanos_from(now) >= 0 ==> schedule.wait(now, Some(next))
            == next.nanos_from(now),
        ScheduleView::FixedSecs(secs).wait(now, Some(next)) == ScheduleView::FixedSecs(secs).wait(
            now,
            None,
        ),
        ScheduleView::FixedSecs(secs).wait(now, None) == secs * crate::clock::SECOND_NANOS,
        schedule.wait(now, Some(next)) >= 0,
{
}

/// The cron expression of each schedule: every minute, the start of every hour, the given
/// minute and hour of every day, and the given expression as it is; a fixed interval has none.
pub proof fn law_schedule_is_written_as_cron(hour: nat, minute: nat, expr: Seq<char>, secs: nat)
    ensures
        ScheduleView::EveryMinute.expression() == Some("* * * * *"@),
        ScheduleView::Hourly.expression() == Some("0 * * * *"@),
        (ScheduleView::DailyAt { hour, minute }).expression() matches Some(text) && text
            == crate::text::decimal(minute) + (" "@ + crate::text::decimal(hour) + " * * *"@),
        ScheduleView::Cron(expr).expression() == Some(expr),
        ScheduleView::FixedSecs(secs).expression() is None,
{
    let text = (ScheduleView::DailyAt { hour, minute }).expression()->0;
    assert(text == crate::text::decimal(minute) + (" "@ + crate::text::decimal(hour) + " * * *"@));
}

/// A schedule that is aligned to the clock waits until its next time, one second where that is
/// past already, and a minute where there is none.
pub proof fn law_wait_by_the_clock(schedule: ScheduleView, now: Instant, next: Instant)
    requires
        !(schedule is FixedSecs),
    ensures
        next.nanos_from(now) >= 0 ==> schedule.wait(now, Some(next)) == next.nanos_from(now),
        next.nanos_from(now) < 0 ==> schedule.wait(now, Some(next)) == 1_000_000_000,
        schedule.wait(now, None) == 60 * 1_000_000_000,
{
}

/// A fixed interval is waited in full, whatever the clock says.
pub proof fn law_fixed_interval_is_waited(secs: nat, now: Instant, next: Option<Instant>)
    ensures
        ScheduleView::FixedSecs(secs).wait(now, next) == secs * 1_000_000_000,
{
}

/// The loop of a service that runs at the start begins with a run, that of any other with a
/// wait for its next time.
pub proof fn law_loop_begins(schedule: ScheduleView, now: Instant, next: Option<Instant>)
    requires
        0 <= schedule.wait(now, next) <= u128::MAX,
    ensures
        loop_start(schedule, true, now, next) == (LoopState::Ticking, LoopAction::Tick),
        loop_start(schedule, false, now, next).0 == LoopState::Waiting,
        loop_start(schedule, false, now, next).1 matches LoopAction::Wait(nanos) && nanos
            == schedule.wait(now, next),
{
}

/// Run and wait alternate: after a run the loop waits for the next time, and after the wait it
/// runs again.
pub proof fn law_run_and_wait_alternate(schedule: ScheduleView, now: Instant, next: Option<Instant>)
    requires
        0 <= schedule.wait(now, next) <= u128::MAX,
    ensures
        loop_next(schedule, LoopState::Ticking, LoopEvent::Ticked { now, next }).0
            == LoopState::Waiting,
        loop_next(schedule, LoopState::Ticking, LoopEvent::Ticked { now, next }).1
            matches LoopAction::Wait(nanos) && nanos == schedule.wait(now, next),
        loop_next(schedule, LoopState::Waiting, LoopEvent::Elapsed) == (
            LoopState::Ticking,
            LoopAction::Tick,
        ),
{
}

/// The view of a schedule holds its times and its expression.
pub proof fn law_schedule_view_is_faithful(schedule: Schedule)
    ensures
        schedule is EveryMinute <==> schedule@ is EveryMinute,
        schedule is Hourly <==> schedule@ is Hourly,
        schedule matches Schedule::DailyAt { hour, minute } ==> schedule@
            == (ScheduleView::DailyAt { hour: hour as nat, minute: minute as nat }),
        schedule matches Schedule::Cron(expr) ==> schedule@ == ScheduleView::Cron(expr@),
        schedule matches Schedule::CronExpr(expr) ==> schedule@ == ScheduleView::Cron(expr@),
        schedule matches Schedule::FixedSecs(secs) ==> schedule@ == ScheduleView::FixedSecs(
            secs as nat,
        ),
{
}

} // verus!
