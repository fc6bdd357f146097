use crate::clock::duration_nanos;
use crate::display::{duration_text, format_duration};
use std::time::{Duration, Instant};
use vstd::prelude::*;

verus! {

/// The line that reports a task still running after `nanos` nanoseconds.
pub open spec fn elapsed_text(task_name: Seq<char>, nanos: nat) -> Seq<char> {
    task_name + " elapsed "@ + duration_text(nanos)
}

/// The line that reports a task that took `nanos` nanoseconds.
pub open spec fn took_text(task_name: Seq<char>, nanos: nat) -> Seq<char> {
    task_name + " took "@ + duration_text(nanos)
}

/// The label a wrapper gives its timer: the one passed, or the empty string.
pub open spec fn label_or_empty(task_name: Option<&str>) -> Seq<char> {
    match task_name {
        Some(s) => s@,
        None => Seq::empty(),
    }
}

/// Builds `task_name`, then `middle`, then the formatted `elapsed`.
fn report_line(task_name: &str, middle: &str, elapsed: Duration) -> (r: String)
    ensures
        r@ == task_name@ + middle@ + duration_text(duration_nanos(elapsed)),
{
    let text = format_duration(elapsed);
    let mut line = task_name.to_owned();
    line.append(middle);
    line.append(text.as_str());
    line
}

/// The running report for `task_name` once `elapsed` has passed.
pub fn elapsed_line(task_name: &str, elapsed: Duration) -> (r: String)
    ensures
        r@ == elapsed_text(task_name@, duration_nanos(elapsed)),
{
    report_line(task_name, " elapsed ", elapsed)
}

/// The final report for `task_name` once `elapsed` has passed.
pub fn took_line(task_name: &str, elapsed: Duration) -> (r: String)
    ensures
        r@ == took_text(task_name@, duration_nanos(elapsed)),
{
    report_line(task_name, " took ", elapsed)
}

/// A stopwatch for one named task. It starts when made or restarted; a
/// finished task is reported once, after which the timer is not reused.
pub struct Timer {
    pub start_time: Instant,
    pub task_name: String,
}

impl Timer {
    /// Starts timing a task called `task_name`.
    pub fn new(task_name: &str) -> (r: Timer)
        ensures
            r.task_name@ == task_name@,
    {
        Timer { start_time: Instant::now(), task_name: task_name.to_owned() }
    }

    /// Starts timing again from now, under a new task name.
    pub fn restart(&mut self, task_name: &str)
        ensures
            final(self).task_name@ == task_name@,
    {
        self.start_time = Instant::now();
        self.task_name = task_name.to_owned();
    }

    /// The time passed since the timer started; it depends on the clock.
    pub fn duration(&self) -> Duration {
        self.start_time.elapsed()
    }

    /// The time passed since the timer started, formatted.
    pub fn duration_str(&self) -> (r: String)
        ensures
            exists|d: Duration| r@ == #[trigger] duration_text(duration_nanos(d)),
    {
        let d = self.duration();
        format_duration(d)
    }

    /// `"<task> elapsed <time>"` for the time passed so far.
    pub fn elapsed_str(&self) -> (r: String)
        ensures
            exists|d: Duration| r@ == #[trigger] elapsed_text(self.task_name@, duration_nanos(d)),
    {
        elapsed_line(self.task_name.as_str(), self.duration())
    }

    /// `"<task> took <time>"` for the time passed so far.
    pub fn took_str(&self) -> (r: String)
        ensures
            exists|d: Duration| r@ == #[trigger] took_text(self.task_name@, duration_nanos(d)),
    {
        took_line(self.task_name.as_str(), self.duration())
    }
}

impl Default for Timer {
    /// A timer for a task with an empty name.
    fn default() -> (r: Timer)
        ensures
            r.task_name@ == Seq::<char>::empty(),
    {
        proof {
            reveal_strlit("");
        }
        Timer::new("")
    }
}

fn label(task_name: Option<&str>) -> (r: &str)
    ensures
        r@ == label_or_empty(task_name),
{
    proof {
        reveal_strlit("");
    }
    match task_name {
        Some(s) => s,
        None => "",
    }
}

/// Runs `f` under a timer named `task_name` (empty when absent). Returns
/// what `f` returned, unchanged, with the final report of the timer; the
/// report exists only once `f` has returned normally.
pub fn took<F: FnOnce() -> R, R>(f: F, task_name: Option<&str>) -> (r: (R, String))
    requires
        f.requires(()),
    ensures
        f.ensures((), r.0),
        exists|d: Duration| r.1@ == #[trigger] took_text(label_or_empty(task_name), duration_nanos(d)),
{
    let timer = Timer::new(label(task_name));
    let result = f();
    let report = timer.took_str();
    (result, report)
}

/// Runs `f` under a timer named `task_name` (empty when absent). Returns
/// what `f` returned, unchanged, with the final report of the timer, the
/// line that goes to the log; it exists only once `f` has returned normally.
pub fn ltook<F: FnOnce() -> R, R>(f: F, task_name: Option<&str>) -> (r: (R, String))
    requires
        f.requires(()),
    ensures
        f.ensures((), r.0),
        exists|d: Duration| r.1@ == #[trigger] took_text(label_or_empty(task_name), duration_nanos(d)),
{
    took(f, task_name)
}

} // verus!
