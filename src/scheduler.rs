//! Scheduling of time-based triggers: which timer an automation needs, the
//! table of live timers (at most one per automation), and when a
//! time-of-day trigger next fires.

use vstd::prelude::*;
use vstd::string::*;
use crate::error::AutomationError;
use crate::evaluator::{LocalTime, clock_time_of, parse_time, seconds_of};
use crate::model::{Automation, ScheduleSpec, Trigger};

verus! {

#[verifier::external_type_specification]
#[verifier::external_body]
pub struct ExSchedule(cron::Schedule);

/// Whether the cron crate accepts an expression.
pub uninterp spec fn cron_accepts(expression: Seq<char>) -> bool;

/// Relies on cron's `Schedule::from_str`: whether an expression is accepted
/// depends on its text alone; a refusal is handed back as the error's text.
#[verifier::external_body]
fn parse_cron(expression: &str) -> (r: Result<cron::Schedule, String>)
    ensures
        r is Ok == cron_accepts(expression@),
{
    match <cron::Schedule as std::str::FromStr>::from_str(expression) {
        Ok(s) => Ok(s),
        Err(e) => Err(e.to_string()),
    }
}

/// A scheduled trigger fired for this automation.
#[derive(Debug, Clone)]
pub struct SchedulerEvent {
    pub automation_id: String,
}

/// The timer an automation needs.
pub enum TimerPlan {
    /// No timer.
    Idle,
    /// Fire every so many seconds, the first time one period after start.
    Interval { seconds: u64 },
    /// Fire daily at this many seconds after local midnight, on the listed
    /// weekdays (none listed means every day).
    TimeOfDay { seconds: u32, days: Vec<u8> },
    /// Fire on the upcoming times of a cron schedule.
    Cron(cron::Schedule),
}

/// What registering an automation asks for: the timer to install, if any.
pub open spec fn plan_matches(a: Automation, r: Result<TimerPlan, AutomationError>) -> bool {
    match a.trigger {
        Trigger::Schedule { schedule } => if !a.enabled {
            r matches Ok(TimerPlan::Idle)
        } else {
            match schedule {
                ScheduleSpec::Interval { seconds } => r matches Ok(TimerPlan::Interval { seconds: s }) && s == seconds,
                ScheduleSpec::TimeOfDay { time, days } => match clock_time_of(time@) {
                    Some(hm) => r matches Ok(TimerPlan::TimeOfDay { seconds, days: d }) && seconds == seconds_of(hm) && d@ == days@,
                    None => r == Err::<TimerPlan, AutomationError>(AutomationError::InvalidTimeFormat(time)),
                },
                ScheduleSpec::Cron { expression } => if cron_accepts(expression@) {
                    r matches Ok(TimerPlan::Cron(_))
                } else {
                    r matches Err(AutomationError::InvalidCron(_))
                },
            }
        },
        _ => r matches Ok(TimerPlan::Idle),
    }
}

fn copy_days(days: &Vec<u8>) -> (r: Vec<u8>)
    ensures
        r@ == days@,
{
    let mut out: Vec<u8> = Vec::new();
    let mut i: usize = 0;
    while i < days.len()
        invariant
            i <= days@.len(),
            out@ == days@.subrange(0, i as int),
        decreases days@.len() - i,
    {
        out.push(days[i]);
        i = i + 1;
        assert(out@ =~= days@.subrange(0, i as int));
    }
    assert(out@ =~= days@);
    out
}

/// The timer an automation needs: none unless it has a schedule trigger and
/// is enabled. A time that is not HH:MM and a cron expression that does not
/// parse are errors.
pub fn plan_schedule(automation: &Automation) -> (r: Result<TimerPlan, AutomationError>)
    ensures
        plan_matches(*automation, r),
{
    match &automation.trigger {
        Trigger::Schedule { schedule } => {
            if !automation.enabled {
                return Ok(TimerPlan::Idle);
            }
            match schedule {
                ScheduleSpec::Interval { seconds } => Ok(TimerPlan::Interval { seconds: *seconds }),
                ScheduleSpec::TimeOfDay { time, days } => {
                    let seconds = parse_time(time)?;
                    Ok(TimerPlan::TimeOfDay { seconds, days: copy_days(days) })
                },
                ScheduleSpec::Cron { expression } => match parse_cron(expression.as_str()) {
                    Ok(s) => Ok(TimerPlan::Cron(s)),
                    Err(msg) => {
                        let mut text = expression.clone();
                        text.append(": ");
                        text.append(msg.as_str());
                        Err(AutomationError::InvalidCron(text))
                    },
                },
            }
        },
        _ => Ok(TimerPlan::Idle),
    }
}

/// No two timers belong to the same automation.
pub open spec fn ids_unique<H>(s: Seq<(String, H)>) -> bool {
    forall|i: int, j: int|
        0 <= i < s.len() && 0 <= j < s.len() && i != j ==> #[trigger] s[i].0@ != #[trigger] s[j].0@
}

/// How many timers belong to the automation with this id.
pub open spec fn timers_for<H>(s: Seq<(String, H)>, id: Seq<char>) -> nat
    decreases s.len(),
{
    if s.len() == 0 {
        0
    } else {
        timers_for(s.drop_last(), id) + if s.last().0@ == id {
            1nat
        } else {
            0nat
        }
    }
}

proof fn lemma_timers_for_absent<H>(s: Seq<(String, H)>, id: Seq<char>)
    requires
        forall|i: int| 0 <= i < s.len() ==> #[trigger] s[i].0@ != id,
    ensures
        timers_for(s, id) == 0,
    decreases s.len(),
{
    if s.len() > 0 {
        lemma_timers_for_absent(s.drop_last(), id);
    }
}

/// Live timers, at most one per automation.
pub struct Scheduler<H> {
    entries: Vec<(String, H)>,
}

impl<H> View for Scheduler<H> {
    type V = Seq<(String, H)>;

    closed spec fn view(&self) -> Seq<(String, H)> {
        self.entries@
    }
}

impl<H> Scheduler<H> {
    /// At most one timer per automation.
    pub closed spec fn wf(&self) -> bool {
        ids_unique(self.entries@)
    }

    /// No timers.
    pub fn new() -> (r: Scheduler<H>)
        ensures
            r.wf(),
            r@.len() == 0,
    {
        Scheduler { entries: Vec::new() }
    }

    /// Number of live timers.
    pub fn active_count(&self) -> (r: usize)
        ensures
            r == self@.len(),
    {
        self.entries.len()
    }

    fn position(&self, id: &String) -> (r: Option<usize>)
        ensures
            match r {
                Some(i) => i < self@.len() && self@[i as int].0@ == id@,
                None => forall|i: int| 0 <= i < self@.len() ==> #[trigger] self@[i].0@ != id@,
            },
    {
        let mut i: usize = 0;
        while i < self.entries.len()
            invariant
                i <= self.entries@.len(),
                forall|j: int| 0 <= j < i ==> #[trigger] self.entries@[j].0@ != id@,
            decreases self.entries@.len() - i,
        {
            if self.entries[i].0 == *id {
                return Some(i);
            }
            i = i + 1;
        }
        None
    }

    /// Takes the timer of this automation out of the table, to be stopped.
    pub fn remove(&mut self, id: &String) -> (r: Option<H>)
        requires
            old(self).wf(),
        ensures
            final(self).wf(),
            timers_for(final(self)@, id@) == 0,
            forall|k: Seq<char>| k != id@ ==> timers_for(final(self)@, k) == timers_for(old(self)@, k),
            r is None <==> timers_for(old(self)@, id@) == 0,
    {
        match self.position(id) {
            Some(i) => {
                let ghost before = self.entries@;
                let (_, h) = self.entries.remove(i);
                proof {
                    let after = self.entries@;
                    assert forall|a: int, b: int|
                        0 <= a < after.len() && 0 <= b < after.len() && a != b implies #[trigger] after[a].0@
                            != #[trigger] after[b].0@ by {
                        let a0 = if a < i { a } else { a + 1 };
                        let b0 = if b < i { b } else { b + 1 };
                        assert(before[a0].0@ != before[b0].0@);
                    }
                    assert forall|j: int| 0 <= j < after.len() implies #[trigger] after[j].0@ != id@ by {
                        let j0 = if j < i { j } else { j + 1 };
                        assert(before[j0].0@ != before[i as int].0@);
                    }
                    lemma_timers_for_absent(after, id@);
                    lemma_timers_for_remove(before, i as int);
                    lemma_timers_for_present(before, i as int);
                }
                Some(h)
            },
            None => {
                proof {
                    lemma_timers_for_absent(self@, id@);
                }
                None
            },
        }
    }

    /// Installs the timer of an automation that has none.
    pub fn install(&mut self, id: String, handle: H)
        requires
            old(self).wf(),
            timers_for(old(self)@, id@) == 0,
        ensures
            final(self).wf(),
            timers_for(final(self)@, id@) == 1,
            forall|k: Seq<char>| k != id@ ==> timers_for(final(self)@, k) == timers_for(old(self)@, k),
            final(self)@.len() == old(self)@.len() + 1,
    {
        let ghost before = self.entries@;
        let ghost key = id@;
        proof {
            lemma_timers_for_zero(before, key);
        }
        self.entries.push((id, handle));
        proof {
            let after = self.entries@;
            assert(after.drop_last() =~= before);
            assert forall|a: int, b: int|
                0 <= a < after.len() && 0 <= b < after.len() && a != b implies #[trigger] after[a].0@
                    != #[trigger] after[b].0@ by {
                if a < before.len() && b < before.len() {
                    assert(before[a].0@ != before[b].0@);
                } else if a < before.len() {
                    assert(before[a].0@ != key);
                } else {
                    assert(before[b].0@ != key);
                }
            }
        }
    }
}

proof fn lemma_timers_for_zero<H>(s: Seq<(String, H)>, id: Seq<char>)
    requires
        timers_for(s, id) == 0,
    ensures
        forall|i: int| 0 <= i < s.len() ==> #[trigger] s[i].0@ != id,
    decreases s.len(),
{
    if s.len() > 0 {
        lemma_timers_for_zero(s.drop_last(), id);
        assert forall|i: int| 0 <= i < s.len() implies #[trigger] s[i].0@ != id by {
            if i < s.len() - 1 {
                assert(s.drop_last()[i] == s[i]);
            }
        }
    }
}

proof fn lemma_timers_for_present<H>(s: Seq<(String, H)>, i: int)
    requires
        0 <= i < s.len(),
    ensures
        timers_for(s, s[i].0@) > 0,
    decreases s.len(),
{
    if i < s.len() - 1 {
        lemma_timers_for_present(s.drop_last(), i);
    }
}

proof fn lemma_timers_for_remove<H>(s: Seq<(String, H)>, i: int)
    requires
        0 <= i < s.len(),
    ensures
        forall|k: Seq<char>| k != s[i].0@ ==> timers_for(s.remove(i), k) == timers_for(s, k),
    decreases s.len(),
{
    assert forall|k: Seq<char>| k != s[i].0@ implies timers_for(s.remove(i), k) == timers_for(s, k) by {
        lemma_timers_for_remove_one(s, i, k);
    }
}

proof fn lemma_timers_for_remove_one<H>(s: Seq<(String, H)>, i: int, k: Seq<char>)
    requires
        0 <= i < s.len(),
        k != s[i].0@,
    ensures
        timers_for(s.remove(i), k) == timers_for(s, k),
    decreases s.len(),
{
    if i == s.len() - 1 {
        assert(s.remove(i) =~= s.drop_last());
    } else {
        lemma_timers_for_remove_one(s.drop_last(), i, k);
        assert(s.remove(i).drop_last() =~= s.drop_last().remove(i));
        assert(s.remove(i).last() == s.last());
    }
}

/// Whether an automation needs a live timer: a schedule trigger, enabled.
pub open spec fn needs_timer(a: Automation) -> bool {
    a.trigger is Schedule && a.enabled
}

/// Whether an automation's schedule can be planned: its time reads as
/// HH:MM and its cron expression parses (only checked when enabled).
pub open spec fn schedule_valid(a: Automation) -> bool {
    match a.trigger {
        Trigger::Schedule { schedule } => !a.enabled || match schedule {
            ScheduleSpec::TimeOfDay { time, .. } => clock_time_of(time@) is Some,
            ScheduleSpec::Cron { expression } => cron_accepts(expression@),
            ScheduleSpec::Interval { .. } => true,
        },
        _ => true,
    }
}

/// The timer table after registering an automation: its earlier timer is
/// gone, and it has one timer exactly when it needs one and the
/// registration succeeded; other automations keep theirs.
pub open spec fn register_effect<H>(
    old: Seq<(String, H)>,
    new: Seq<(String, H)>,
    a: Automation,
    ok: bool,
) -> bool {
    &&& timers_for(new, a.id@) == (if ok && needs_timer(a) {
        1nat
    } else {
        0nat
    })
    &&& forall|k: Seq<char>| k != a.id@ ==> timers_for(new, k) == timers_for(old, k)
}

/// Registering the same automation twice leaves exactly one live timer for
/// it, when it needs one, and no change to other automations' timers.
pub proof fn lemma_register_twice_one_timer<H>(
    t0: Seq<(String, H)>,
    t1: Seq<(String, H)>,
    t2: Seq<(String, H)>,
    a: Automation,
    ok1: bool,
)
    requires
        register_effect(t0, t1, a, ok1),
        register_effect(t1, t2, a, true),
        needs_timer(a),
    ensures
        timers_for(t2, a.id@) == 1,
        forall|k: Seq<char>| k != a.id@ ==> timers_for(t2, k) == timers_for(t0, k),
{
}

/// Starts the timer task that a plan describes.
pub trait TimerStarter<H> {
    /// Starts a task firing for `automation_id` as `plan` says, and returns its handle.
    fn start(&mut self, automation_id: &String, plan: TimerPlan) -> H;
}

impl<H> Scheduler<H> {
    /// Registers an automation: takes out its timer (returned, to be
    /// stopped), then starts and installs a new one when it has an enabled
    /// schedule trigger. An invalid time or cron expression is an error.
    pub fn register<S: TimerStarter<H>>(&mut self, automation: &Automation, starter: &mut S) -> (r: (
        Option<H>,
        Result<(), AutomationError>,
    ))
        requires
            old(self).wf(),
        ensures
            final(self).wf(),
            r.1 is Ok <==> schedule_valid(*automation),
            r.0 is Some <==> timers_for(old(self)@, automation.id@) > 0,
            register_effect(old(self)@, final(self)@, *automation, r.1 is Ok),
    {
        let plan = plan_schedule(automation);
        let stopped = self.remove(&automation.id);
        match plan {
            Err(e) => (stopped, Err(e)),
            Ok(TimerPlan::Idle) => (stopped, Ok(())),
            Ok(p) => {
                let handle = starter.start(&automation.id, p);
                self.install(automation.id.clone(), handle);
                (stopped, Ok(()))
            },
        }
    }
}

} // verus!

verus! {

/// Days to move forward from `d` until the weekday is allowed, trying at
/// most seven more days.
pub open spec fn advance_days(days: Seq<u8>, weekday: u8, d: nat, attempts: nat) -> nat
    decreases 7 - attempts,
{
    if attempts >= 7 || days.contains(((weekday as nat + d) % 7) as u8) {
        d
    } else {
        advance_days(days, weekday, d + 1, attempts + 1)
    }
}

/// In how many days a time-of-day trigger next fires: today if its time is
/// still ahead, else tomorrow; then forward one day at a time (at most seven
/// times) until the weekday is allowed.
pub open spec fn next_occurrence(now: LocalTime, target: u32, days: Seq<u8>) -> nat {
    let base: nat = if target > now.seconds {
        0
    } else {
        1
    };
    if days.len() == 0 {
        base
    } else {
        advance_days(days, now.weekday, base, 0)
    }
}

/// In how many days a time-of-day trigger at `target` seconds after local
/// midnight next fires.
pub fn next_occurrence_days(now: LocalTime, target: u32, days: &Vec<u8>) -> (r: u32)
    requires
        now.weekday < 7,
    ensures
        r as nat == next_occurrence(now, target, days@),
        r <= 8,
{
    let mut d: u32 = if target > now.seconds { 0 } else { 1 };
    if days.len() == 0 {
        return d;
    }
    let mut attempts: u32 = 0;
    while attempts < 7 && !crate::evaluator::evaluate_day_of_week(days, ((now.weekday as u32 + d) % 7) as u8)
        invariant
            attempts <= 7,
            d == attempts + (if target > now.seconds { 0u32 } else { 1u32 }),
            days@.len() > 0,
            now.weekday < 7,
            advance_days(days@, now.weekday, d as nat, attempts as nat) == next_occurrence(now, target, days@),
        decreases 7 - attempts,
    {
        d = d + 1;
        attempts = attempts + 1;
    }
    d
}

} // verus!
