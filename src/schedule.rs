//! Schedules: a fixed interval or a cron pattern, and the wait until the next run.

use vstd::prelude::*;

use chrono::{Local, TimeZone};
use croner::Cron;

verus! {

/// croner's parsed cron pattern, carried as it is.
#[verifier::external_type_specification]
#[verifier::external_body]
pub struct ExCron(Cron);

/// A span of time: whole seconds and the nanoseconds beyond them.
#[derive(Debug, Clone, Copy, PartialEq, Eq, Structural)]
pub struct Delay {
    pub secs: u64,
    pub nanos: u32,
}

impl Delay {
    /// The nanoseconds part stays below one second.
    pub open spec fn wf(self) -> bool {
        self.nanos < 1_000_000_000
    }

    /// The whole span in nanoseconds.
    pub open spec fn total_nanos(self) -> int {
        self.secs * 1_000_000_000 + self.nanos
    }

    /// A span of whole seconds.
    pub fn from_secs(secs: u64) -> (r: Delay)
        ensures
            r == (Delay { secs, nanos: 0 }),
            r.wf(),
    {
        Delay { secs, nanos: 0 }
    }

    /// A span of milliseconds.
    pub fn from_millis(millis: u64) -> (r: Delay)
        ensures
            r.wf(),
            r.total_nanos() == millis * 1_000_000,
    {
        let secs = millis / 1000;
        let rest = millis % 1000;
        let nanos: u32 = (rest as u32) * 1_000_000;
        assert(secs * 1_000_000_000 + rest * 1_000_000 == millis * 1_000_000) by (nonlinear_arith)
            requires
                secs == millis / 1000,
                rest == millis % 1000,
        ;
        Delay { secs, nanos }
    }
}

/// Why a schedule gave no wait.
#[derive(Debug, Clone, Copy, PartialEq, Eq, Structural)]
pub enum ScheduleError {
    /// The text is neither a cron pattern nor a duration.
    InvalidSchedule,
    /// The cron pattern has no occurrence after the current instant.
    UnresolvableSchedule,
}

/// When something runs again: after a fixed span, or at the next time that a cron pattern matches.
#[derive(Debug)]
pub enum TimeSchedule {
    Interval(Delay),
    Cron(Cron),
}

/// Whether croner accepts the text as a cron pattern.
pub uninterp spec fn cron_accepts(text: Seq<char>) -> bool;

/// The span that humantime reads from a duration text (seconds, nanoseconds), if it reads one.
pub uninterp spec fn duration_literal(text: Seq<char>) -> Option<(u64, u32)>;

/// Relies on croner's `Cron::parse`, on a pattern made by `Cron::new`: whether
/// the text is a valid cron pattern.
#[verifier::external_body]
fn parse_cron(text: &str) -> (r: Option<Cron>)
    ensures
        r.is_some() == cron_accepts(text@),
{
    Cron::new(text).parse().ok()
}

/// Relies on `humantime::parse_duration`: the span that a duration text such as
/// `30m` names. A `std::time::Duration` keeps its nanoseconds below one second.
#[verifier::external_body]
fn parse_duration_text(text: &str) -> (r: Option<Delay>)
    ensures
        match r {
            Some(d) => duration_literal(text@) == Some((d.secs, d.nanos)) && d.wf(),
            None => duration_literal(text@).is_none(),
        },
{
    humantime::parse_duration(text).ok().map(|d| Delay { secs: d.as_secs(), nanos: d.subsec_nanos() })
}

/// Relies on croner's `Cron::find_next_occurrence`, searching strictly after the
/// instant given in milliseconds since the Unix epoch, read in the machine's
/// local time zone (chrono's `Local`). The answer depends on that time zone:
/// nothing is stated of it.
#[verifier::external_body]
fn next_cron_occurrence(cron: &Cron, after_millis: i64) -> (r: Option<i64>) {
    let start = Local.timestamp_millis_opt(after_millis).single()?;
    cron.find_next_occurrence(&start, false).ok().map(|t| t.timestamp_millis())
}

/// Relies on chrono's `Local::now`: the current instant, in milliseconds since the Unix epoch.
#[verifier::external_body]
fn now_millis() -> (r: i64) {
    Local::now().timestamp_millis()
}

/// The wait from `now_millis` until the instant `next`, both in milliseconds
/// since the Unix epoch. Only an instant strictly after `now_millis` gives a wait.
pub fn wait_until(now_millis: i64, next: Option<i64>) -> (r: Result<Delay, ScheduleError>)
    ensures
        match next {
            Some(t) => if t > now_millis {
                r matches Ok(d) && d.wf() && d.total_nanos() == (t - now_millis) * 1_000_000
            } else {
                r == Err::<Delay, ScheduleError>(ScheduleError::UnresolvableSchedule)
            },
            None => r == Err::<Delay, ScheduleError>(ScheduleError::UnresolvableSchedule),
        },
{
    match next {
        Some(t) => {
            if t > now_millis {
                let gap: u64 = ((t as i128) - (now_millis as i128)) as u64;
                Ok(Delay::from_millis(gap))
            } else {
                Err(ScheduleError::UnresolvableSchedule)
            }
        },
        None => Err(ScheduleError::UnresolvableSchedule),
    }
}

impl TimeSchedule {
    /// An interval keeps its nanoseconds below one second.
    pub open spec fn wf(&self) -> bool {
        match self {
            TimeSchedule::Interval(d) => d.wf(),
            TimeSchedule::Cron(_) => true,
        }
    }

    /// The schedule that the two readings of a text give: the cron reading wins,
    /// then the duration reading; with neither the text is no schedule.
    pub fn from_readings(cron: Option<Cron>, interval: Option<Delay>) -> (r: Result<TimeSchedule, ScheduleError>)
        ensures
            match cron {
                Some(c) => r == Ok::<TimeSchedule, ScheduleError>(TimeSchedule::Cron(c)),
                None => match interval {
                    Some(d) => r == Ok::<TimeSchedule, ScheduleError>(TimeSchedule::Interval(d)),
                    None => r == Err::<TimeSchedule, ScheduleError>(ScheduleError::InvalidSchedule),
                },
            },
    {
        match cron {
            Some(c) => Ok(TimeSchedule::Cron(c)),
            None => match interval {
                Some(d) => Ok(TimeSchedule::Interval(d)),
                None => Err(ScheduleError::InvalidSchedule),
            },
        }
    }

    /// Reads a schedule: first as a cron pattern, then as a duration such as `30m`.
    pub fn parse(text: &str) -> (r: Result<TimeSchedule, ScheduleError>)
        ensures
            match r {
                Ok(TimeSchedule::Cron(_)) => cron_accepts(text@),
                Ok(TimeSchedule::Interval(d)) => !cron_accepts(text@) && duration_literal(text@) == Some(
                    (d.secs, d.nanos),
                ) && d.wf(),
                Err(e) => e == ScheduleError::InvalidSchedule && !cron_accepts(text@)
                    && duration_literal(text@).is_none(),
            },
            r matches Ok(s) ==> s.wf(),
    {
        let cron = parse_cron(text);
        let interval = if cron.is_some() {
            None
        } else {
            parse_duration_text(text)
        };
        Self::from_readings(cron, interval)
    }

    /// The wait from the instant `now_millis` (milliseconds since the Unix epoch)
    /// until the next run. An interval gives itself, whatever the instant; a cron
    /// pattern gives the span until its next occurrence strictly after the
    /// instant, in local time, or `UnresolvableSchedule` when there is none.
    pub fn next_wait(&self, now_millis: i64) -> (r: Result<Delay, ScheduleError>)
        ensures
            match self {
                TimeSchedule::Interval(d) => r == Ok::<Delay, ScheduleError>(*d),
                TimeSchedule::Cron(_) => match r {
                    Ok(d) => d.wf() && d.total_nanos() > 0,
                    Err(e) => e == ScheduleError::UnresolvableSchedule,
                },
            },
    {
        match self {
            TimeSchedule::Interval(d) => Ok(*d),
            TimeSchedule::Cron(c) => {
                let next = next_cron_occurrence(c, now_millis);
                wait_until(now_millis, next)
            },
        }
    }

    /// The wait from now until the next run, reading the clock.
    pub fn get_duration_till_next_occurrence(&self) -> (r: Result<Delay, ScheduleError>)
        ensures
            match self {
                TimeSchedule::Interval(d) => r == Ok::<Delay, ScheduleError>(*d),
                TimeSchedule::Cron(_) => match r {
                    Ok(d) => d.wf() && d.total_nanos() > 0,
                    Err(e) => e == ScheduleError::UnresolvableSchedule,
                },
            },
    {
        let now = now_millis();
        self.next_wait(now)
    }
}

} // verus!
