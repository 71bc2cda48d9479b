use vstd::prelude::*;
use std::io::Write;
use std::time::{Duration, Instant};
use crate::ui_event::{Key, KeyModifiers, KeyTrait, UIEvent, spec_none, spec_to_char};
use crate::text::push_str;

verus! {

/// `b - a`, or zero when `b` comes before `a`.
pub open spec fn saturating_diff(b: u64, a: u64) -> u64 {
    if b >= a {
        (b - a) as u64
    } else {
        0
    }
}

/// A finished stretch of work: when it started and ended (nanoseconds since
/// the UNIX epoch), what it was, and notes on it.
#[derive(Debug, Clone)]
pub struct Block {
    pub start_time: u64,
    pub end_time: u64,
    pub title: String,
    pub notes: String,
}

impl Block {
    /// How long the block lasted; a block that ends before it starts (the
    /// system clock can go back) lasted no time.
    pub fn duration(&self) -> (d: u64)
        ensures
            d == saturating_diff(self.end_time, self.start_time),
    {
        self.end_time.saturating_sub(self.start_time)
    }
}

/// A countdown: how much time has run and how much is to run in all
/// (both in nanoseconds).
#[derive(Debug, Clone, Copy, PartialEq, Eq, Structural)]
pub struct Timer {
    pub elapsed: u64,
    pub duration: u64,
}

impl Timer {
    /// A timer for `duration` that has not run yet.
    pub fn new_clean(duration: u64) -> (t: Timer)
        ensures
            t == (Timer { elapsed: 0, duration }),
    {
        Timer { elapsed: 0, duration }
    }

    /// Lets `amount` more time run (stopping at the largest representable time).
    pub fn increment(&mut self, amount: u64)
        ensures
            final(self).duration == old(self).duration,
            final(self).elapsed == if old(self).elapsed + amount <= u64::MAX {
                (old(self).elapsed + amount) as u64
            } else {
                u64::MAX
            },
    {
        self.elapsed = self.elapsed.saturating_add(amount);
    }

    /// The whole duration has run.
    pub fn is_done(&self) -> (done: bool)
        ensures
            done == (self.elapsed >= self.duration),
    {
        self.elapsed >= self.duration
    }
}

/// A timer that runs while switched on, measured from the last tick.
pub struct TimerWidget {
    timer: Timer,
    /// running or paused
    running: bool,
    /// When the widget last ticked (nanoseconds on a monotonic clock).
    most_recent: u64,
}

impl TimerWidget {
    pub closed spec fn spec_timer(self) -> Timer {
        self.timer
    }

    pub closed spec fn spec_running(self) -> bool {
        self.running
    }

    pub closed spec fn spec_most_recent(self) -> u64 {
        self.most_recent
    }

    /// A widget for `timer`, running or paused, that last ticked at `now`.
    pub fn new(timer: Timer, running: bool, now: u64) -> (w: TimerWidget)
        ensures
            w.spec_timer() == timer,
            w.spec_running() == running,
            w.spec_most_recent() == now,
    {
        TimerWidget { timer, running, most_recent: now }
    }

    /// Runs or pauses the timer.
    pub fn set_running(&mut self, is_running: bool)
        ensures
            final(self).spec_running() == is_running,
            final(self).spec_timer() == old(self).spec_timer(),
            final(self).spec_most_recent() == old(self).spec_most_recent(),
    {
        self.running = is_running
    }

    pub fn is_running(&self) -> (running: bool)
        ensures
            running == self.spec_running(),
    {
        self.running
    }

    /// Brings the timer up to `now`: a finished timer is left alone;
    /// otherwise, when running, the time since the last tick is added, and
    /// `now` becomes the last tick.
    pub fn tick(&mut self, now: u64)
        ensures
            final(self).spec_running() == old(self).spec_running(),
            final(self).spec_timer() == ticked_timer(old(self).spec_timer(), old(self).spec_running(), old(self).spec_most_recent(), now),
            final(self).spec_most_recent() == ticked_last(old(self).spec_timer(), old(self).spec_most_recent(), now),
    {
        if self.is_done() {
            return;
        }
        if self.running {
            self.timer.increment(now.saturating_sub(self.most_recent));
        }
        self.most_recent = now;
    }

    /// The timer has run its whole duration.
    pub fn is_done(&self) -> (done: bool)
        ensures
            done == (self.spec_timer().elapsed >= self.spec_timer().duration),
    {
        self.timer.is_done()
    }

    pub fn get_timer(&self) -> (timer: &Timer)
        ensures
            *timer == self.spec_timer(),
    {
        &self.timer
    }

    /// Handles an event at time `now`: Space (with no modifier) or a click
    /// on the widget's button switches between running and paused; then the
    /// widget ticks. `button_clicked` says whether the event clicked the button.
    pub fn handle_event(&mut self, ui_event: UIEvent, button_clicked: bool, now: u64)
        ensures
            final(self).spec_running() == (old(self).spec_running() != toggles_timer(ui_event, button_clicked)),
            final(self).spec_timer() == ticked_timer(old(self).spec_timer(), final(self).spec_running(), old(self).spec_most_recent(), now),
            final(self).spec_most_recent() == ticked_last(old(self).spec_timer(), old(self).spec_most_recent(), now),
    {
        match ui_event {
            UIEvent::KeyPress(key, m) => {
                if m == KeyModifiers::none() && key.to_char() == Some(' ') {
                    self.running = !self.running;
                }
            },
            UIEvent::MousePress(_) => {
                if button_clicked {
                    self.running = !self.running;
                }
            },
            _ => {},
        }
        self.tick(now);
    }
}

/// The timer after a tick at `now` whose previous tick was at `last`: a
/// finished timer is left alone; a running one gains the time in between
/// (saturating); a paused one keeps its time.
pub open spec fn ticked_timer(timer: Timer, running: bool, last: u64, now: u64) -> Timer {
    if timer.elapsed >= timer.duration || !running {
        timer
    } else {
        let e = timer.elapsed + saturating_diff(now, last);
        Timer { elapsed: if e <= u64::MAX { e as u64 } else { u64::MAX }, duration: timer.duration }
    }
}

/// The time of the last tick after a tick at `now`: unchanged for a finished
/// timer.
pub open spec fn ticked_last(timer: Timer, last: u64, now: u64) -> u64 {
    if timer.elapsed >= timer.duration { last } else { now }
}

/// Whether an event switches a timer widget between running and paused.
pub open spec fn toggles_timer(ui_event: UIEvent, button_clicked: bool) -> bool {
    match ui_event {
        UIEvent::KeyPress(key, m) => m == spec_none() && spec_to_char(key) == Some(' '),
        UIEvent::MousePress(_) => button_clicked,
        _ => false,
    }
}

/// Ticking never takes time away from a timer, and a finished timer stays
/// finished.
pub proof fn lemma_tick_monotone(timer: Timer, running: bool, last: u64, now: u64)
    ensures
        timer.elapsed <= ticked_timer(timer, running, last, now).elapsed,
        ticked_timer(timer, running, last, now).duration == timer.duration,
        timer.elapsed >= timer.duration ==> ticked_timer(timer, running, last, now) == timer,
{
}

#[verifier::external_type_specification]
#[verifier::external_body]
pub struct ExInstant(std::time::Instant);

/// `Instant::now`: the current time on the monotonic clock (nothing is
/// claimed of the value).
#[verifier::external_body]
fn instant_now() -> Instant {
    Instant::now()
}

/// `Instant::elapsed`: the time since `start` (nothing is claimed of the value).
#[verifier::external_body]
fn instant_elapsed(start: &Instant) -> Duration {
    start.elapsed()
}

/// Writes a line of text to standard output (`writeln!` on
/// `std::io::stdout`; a failed write is ignored).
#[verifier::external_body]
fn print_line(text: &str) {
    let _ = writeln!(std::io::stdout(), "{}", text);
}

/// Writes a line to standard output: `before`, then the duration as its
/// `Debug` format shows it (such as `1.5ms`), then `after` (`writeln!` on
/// `std::io::stdout`; a failed write is ignored).
#[verifier::external_body]
fn print_line_with_duration(before: &str, elapsed: Duration, after: &str) {
    let _ = writeln!(std::io::stdout(), "{}{:?}{}", before, elapsed, after);
}

/// The line printed when a task starts: `Starting '<name>'...`.
pub fn start_message(task_name: &str) -> (m: String)
    ensures
        m@ == "Starting '"@ + task_name@ + "'..."@,
{
    let mut m = String::new();
    push_str(&mut m, "Starting '");
    push_str(&mut m, task_name);
    push_str(&mut m, "'...");
    m
}

/// What comes before the duration in the line printed when a task ends:
/// `Finished '<name>' in ` (the duration and a full stop follow).
pub fn finish_message_prefix(task_name: &str) -> (m: String)
    ensures
        m@ == "Finished '"@ + task_name@ + "' in "@,
{
    let mut m = String::new();
    push_str(&mut m, "Finished '");
    push_str(&mut m, task_name);
    push_str(&mut m, "' in ");
    m
}

/// Times a task and reports its start and end on standard output.
pub struct TaskTimer {
    start_time: Instant,
    task_name: String,
}

impl TaskTimer {
    pub closed spec fn name(self) -> Seq<char> {
        self.task_name@
    }

    /// Starts timing a task; the name need not be unique.
    pub fn start(task_name: String) -> (timer: TaskTimer)
        ensures
            timer.name() == task_name@,
    {
        let message = start_message(task_name.as_str());
        print_line(message.as_str());
        TaskTimer { task_name, start_time: instant_now() }
    }

    /// Stops timing and reports how long the task took.
    pub fn end(self) {
        let elapsed = instant_elapsed(&self.start_time);
        let prefix = finish_message_prefix(self.task_name.as_str());
        print_line_with_duration(prefix.as_str(), elapsed, ".");
    }
}

/// Runs `task_doer` between a start and an end report, and returns what it
/// returns.
pub fn do_task<O, F: FnOnce() -> O>(task_name: String, task_doer: F) -> (output: O)
    requires
        task_doer.requires(()),
    ensures
        task_doer.ensures((), output),
{
    let task_timer = TaskTimer::start(task_name);
    let output = task_doer();
    task_timer.end();
    output
}

} // verus!
