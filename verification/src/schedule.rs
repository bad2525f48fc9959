//! The two recurring schedules that bound the run-window.
//!
//! Cron expressions are parsed and evaluated by the `cron` crate. Nothing in
//! this module is proved about what an expression means: the occurrence that
//! `cron` computes is given a name, and the controller's contracts are stated
//! over that name.

use vstd::prelude::*;
use vstd::string::*;

verus! {

/// `cron::Schedule`, a parsed cron expression. Nothing inside it is visible
/// here; it is only carried from the parser to the iterator.
#[verifier::external_type_specification]
#[verifier::external_body]
pub struct ExSchedule(cron::Schedule);

/// The expression that a parsed `cron::Schedule` was made from. The crate keeps
/// it inside the schedule and prints the schedule as that expression.
pub uninterp spec fn schedule_source(schedule: cron::Schedule) -> Seq<char>;

/// Whether `cron` accepts `expression` as a schedule.
pub uninterp spec fn cron_parses(expression: Seq<char>) -> bool;

/// The first occurrence, in seconds since the Unix epoch (UTC), that the
/// schedule written as `expression` has strictly after the second `after`;
/// `None` when it has none, or when `after` is an instant that `chrono`
/// cannot hold.
pub uninterp spec fn cron_next_after(expression: Seq<char>, after: int) -> Option<int>;

/// The last second (UTC) that the wrapper of `cron`'s iterator is asked about:
/// 9999-12-31T23:59:59. `cron` knows no year past 2100, so nothing is lost.
pub const LAST_QUERY_SECOND: i64 = 253_402_300_799i64;

/// `<cron::Schedule as FromStr>::from_str`, without the error, which says no
/// more than that the expression is invalid. Trusted: the call succeeds
/// exactly on the expressions that `cron_parses` names, and the schedule it
/// returns holds the expression it was given.
#[verifier::external_body]
fn parse_expression(expression: &str) -> (r: Option<cron::Schedule>)
    ensures
        r is Some <==> cron_parses(expression@),
        r matches Some(s) ==> schedule_source(s) == expression@,
{
    <cron::Schedule as std::str::FromStr>::from_str(expression).ok()
}

/// `cron::Schedule`'s `to_string`. Trusted: a schedule prints as the
/// expression that it was made from.
#[verifier::external_body]
fn expression_of(schedule: &cron::Schedule) -> (r: String)
    ensures
        r@ == schedule_source(*schedule),
{
    schedule.to_string()
}

/// `cron::Schedule::after(..).next()`, with the instant given and returned as
/// whole seconds since the Unix epoch (`chrono::DateTime::from_timestamp` and
/// `timestamp`). Trusted: the result depends on the schedule's expression and
/// on `after` alone, and is the named occurrence. `after` is bounded because
/// `cron` adds one second to it, which panics at the end of `chrono`'s range.
#[verifier::external_body]
fn next_after(schedule: &cron::Schedule, after: i64) -> (r: Option<i64>)
    requires
        after <= LAST_QUERY_SECOND,
    ensures
        r is Some <==> cron_next_after(schedule_source(*schedule), after as int) is Some,
        r matches Some(t) ==> cron_next_after(schedule_source(*schedule), after as int)
            == Some(t as int),
{
    let start = chrono::DateTime::<chrono::Utc>::from_timestamp(after, 0)?;
    schedule.after(&start).next().map(|next| next.timestamp())
}

/// Why a pair of schedules could not be built.
#[derive(Debug, Clone, PartialEq, Eq)]
pub enum ScheduleError {
    /// The start expression is not a cron expression.
    InvalidStart(String),
    /// The stop expression is not a cron expression.
    InvalidStop(String),
}

/// The start schedule and the stop schedule of the managed server.
pub struct ScheduleWindow {
    start: cron::Schedule,
    stop: cron::Schedule,
}

/// What `next_occurrence` returns for a schedule expression and an instant.
pub open spec fn spec_next_occurrence(expression: Seq<char>, now: int) -> Option<int> {
    if now <= LAST_QUERY_SECOND {
        cron_next_after(expression, now)
    } else {
        None
    }
}

/// The next occurrence of `schedule` strictly after `now` (seconds since the
/// Unix epoch), if it has one.
fn next_occurrence(schedule: &cron::Schedule, now: i64) -> (r: Option<i64>)
    ensures
        r is Some <==> spec_next_occurrence(schedule_source(*schedule), now as int) is Some,
        r matches Some(t) ==> spec_next_occurrence(schedule_source(*schedule), now as int)
            == Some(t as int),
{
    if now <= LAST_QUERY_SECOND {
        next_after(schedule, now)
    } else {
        None
    }
}

impl ScheduleWindow {
    /// The expression of the start schedule.
    pub closed spec fn start_source(&self) -> Seq<char> {
        schedule_source(self.start)
    }

    /// The expression of the stop schedule.
    pub closed spec fn stop_source(&self) -> Seq<char> {
        schedule_source(self.stop)
    }

    /// Parses both expressions. The start expression is looked at first, so
    /// when both are wrong the error names the start expression.
    pub fn parse(start: &str, stop: &str) -> (r: Result<ScheduleWindow, ScheduleError>)
        ensures
            r is Ok <==> cron_parses(start@) && cron_parses(stop@),
            r matches Ok(w) ==> w.start_source() == start@ && w.stop_source() == stop@,
            r matches Err(e) ==> if !cron_parses(start@) {
                e matches ScheduleError::InvalidStart(s) && s@ == start@
            } else {
                e matches ScheduleError::InvalidStop(s) && s@ == stop@
            },
    {
        let start_schedule = match parse_expression(start) {
            Some(s) => s,
            None => {
                return Err(ScheduleError::InvalidStart(start.to_owned()));
            },
        };
        let stop_schedule = match parse_expression(stop) {
            Some(s) => s,
            None => {
                return Err(ScheduleError::InvalidStop(stop.to_owned()));
            },
        };
        Ok(ScheduleWindow { start: start_schedule, stop: stop_schedule })
    }

    /// The expression of the start schedule.
    pub fn start_expression(&self) -> (r: String)
        ensures
            r@ == self.start_source(),
    {
        expression_of(&self.start)
    }

    /// The expression of the stop schedule.
    pub fn stop_expression(&self) -> (r: String)
        ensures
            r@ == self.stop_source(),
    {
        expression_of(&self.stop)
    }

    /// The next start boundary strictly after `now`.
    pub fn next_start(&self, now: i64) -> (r: Option<i64>)
        ensures
            r is Some <==> spec_next_occurrence(self.start_source(), now as int) is Some,
            r matches Some(t) ==> spec_next_occurrence(self.start_source(), now as int) == Some(
                t as int,
            ),
    {
        next_occurrence(&self.start, now)
    }

    /// The next stop boundary strictly after `now`.
    pub fn next_stop(&self, now: i64) -> (r: Option<i64>)
        ensures
            r is Some <==> spec_next_occurrence(self.stop_source(), now as int) is Some,
            r matches Some(t) ==> spec_next_occurrence(self.stop_source(), now as int) == Some(
                t as int,
            ),
    {
        next_occurrence(&self.stop, now)
    }
}

impl ScheduleError {
    /// The text that describes the failure.
    pub open spec fn spec_message(&self) -> Seq<char> {
        match self {
            ScheduleError::InvalidStart(expression) => "Invalid start schedule: "@ + expression@,
            ScheduleError::InvalidStop(expression) => "Invalid stop schedule: "@ + expression@,
        }
    }

    /// The text that describes the failure.
    pub fn message(&self) -> (r: String)
        ensures
            r@ == self.spec_message(),
    {
        match self {
            ScheduleError::InvalidStart(expression) => {
                let mut text = String::from_str("Invalid start schedule: ");
                text.append(expression.as_str());
                text
            },
            ScheduleError::InvalidStop(expression) => {
                let mut text = String::from_str("Invalid stop schedule: ");
                text.append(expression.as_str());
                text
            },
        }
    }
}

} // verus!
