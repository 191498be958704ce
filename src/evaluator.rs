//! Evaluation of automation conditions against the local time and the
//! device inventory.

use vstd::prelude::*;
use crate::error::AutomationError;
use crate::hex::{ieee_from_text, parse_ieee_address};
use crate::model::Condition;
use crate::network::DeviceInventory;
use crate::device::ZigbeeDevice;

verus! {

broadcast use vstd::std_specs::vec::group_vec_axioms, vstd::seq::group_seq_axioms;

/// Local wall-clock time: seconds since midnight, the sub-second part, and
/// the weekday (0 = Sunday).
#[derive(Debug, Clone, Copy, PartialEq, Eq, Structural)]
pub struct LocalTime {
    pub seconds: u32,
    pub nanos: u32,
    pub weekday: u8,
}

/// What an `HH:MM` time string reads as (hour, minute), if it reads at all.
pub uninterp spec fn clock_time_of(s: Seq<char>) -> Option<(u32, u32)>;

/// Relies on chrono's `NaiveTime::parse_from_str` with the format `%H:%M`:
/// the result depends on the text alone, and a parsed time has an hour below
/// 24 and a minute below 60.
#[verifier::external_body]
fn parse_clock_time(s: &str) -> (r: Option<(u32, u32)>)
    ensures
        r == clock_time_of(s@),
        r matches Some((h, m)) ==> h < 24 && m < 60,
{
    match chrono::NaiveTime::parse_from_str(s, "%H:%M") {
        Ok(t) => Some((chrono::Timelike::hour(&t), chrono::Timelike::minute(&t))),
        Err(_) => None,
    }
}

/// Relies on chrono's `Local::now`: seconds since local midnight are below
/// 86400, and the weekday counted from Sunday is below 7.
#[verifier::external_body]
pub(crate) fn local_now() -> (r: LocalTime)
    ensures
        r.seconds < 86400,
        r.weekday < 7,
{
    let now = chrono::Local::now();
    LocalTime {
        seconds: chrono::Timelike::num_seconds_from_midnight(&now),
        nanos: chrono::Timelike::nanosecond(&now),
        weekday: chrono::Datelike::weekday(&now).num_days_from_sunday() as u8,
    }
}

/// Seconds since midnight of an hour and minute.
pub open spec fn seconds_of(hm: (u32, u32)) -> int {
    hm.0 as int * 3600 + hm.1 as int * 60
}

/// Whether `now` lies in the range from `start` to `end` inclusive; an end
/// before the start wraps past midnight.
pub open spec fn in_time_range(start: int, end: int, now: LocalTime) -> bool {
    let after_start = now.seconds as int >= start;
    let before_end = (now.seconds as int) < end || (now.seconds as int == end && now.nanos == 0);
    if start <= end {
        after_start && before_end
    } else {
        after_start || before_end
    }
}

/// Whether the inventory marks the device with this IEEE address available.
pub open spec fn device_is_available(devices: Seq<ZigbeeDevice>, ieee: Seq<u8>) -> bool {
    exists|i: int| 0 <= i < devices.len() && #[trigger] devices[i].ieee_address@ == ieee && devices[i].available
}

/// The value of a condition, or the error that evaluating it meets first.
pub open spec fn condition_value(c: Condition, now: LocalTime, devices: Option<Seq<ZigbeeDevice>>) -> Result<bool, AutomationError>
    decreases c,
{
    match c {
        Condition::TimeRange { start, end } => match clock_time_of(start@) {
            None => Err(AutomationError::InvalidTimeFormat(start)),
            Some(s) => match clock_time_of(end@) {
                None => Err(AutomationError::InvalidTimeFormat(end)),
                Some(e) => Ok(in_time_range(seconds_of(s), seconds_of(e), now)),
            },
        },
        Condition::DayOfWeek { days } => Ok(days@.len() == 0 || days@.contains(now.weekday)),
        Condition::DeviceAvailable { device_ieee, available } => match devices {
            None => Ok(false),
            Some(devs) => match ieee_from_text(device_ieee@) {
                None => Err(AutomationError::InvalidAction(device_ieee)),
                Some(k) => Ok(device_is_available(devs, k) == available),
            },
        },
        Condition::And { conditions } => all_hold(conditions@, now, devices),
        Condition::Or { conditions } => any_holds(conditions@, now, devices),
        Condition::Not { condition } => match condition_value(*condition, now, devices) {
            Ok(b) => Ok(!b),
            Err(e) => Err(e),
        },
    }
}

/// Conditions evaluated in order until one fails or errs.
pub open spec fn all_hold(cs: Seq<Condition>, now: LocalTime, devices: Option<Seq<ZigbeeDevice>>) -> Result<bool, AutomationError>
    decreases cs,
{
    if cs.len() == 0 {
        Ok(true)
    } else {
        match condition_value(cs[0], now, devices) {
            Err(e) => Err(e),
            Ok(false) => Ok(false),
            Ok(true) => all_hold(cs.subrange(1, cs.len() as int), now, devices),
        }
    }
}

/// Conditions evaluated in order until one holds or errs.
pub open spec fn any_holds(cs: Seq<Condition>, now: LocalTime, devices: Option<Seq<ZigbeeDevice>>) -> Result<bool, AutomationError>
    decreases cs,
{
    if cs.len() == 0 {
        Ok(false)
    } else {
        match condition_value(cs[0], now, devices) {
            Err(e) => Err(e),
            Ok(true) => Ok(true),
            Ok(false) => any_holds(cs.subrange(1, cs.len() as int), now, devices),
        }
    }
}

} // verus!

verus! {

impl DeviceInventory {
    /// Whether the device with this IEEE address is known and available.
    pub fn is_available(&self, ieee: &[u8; 8]) -> (r: bool)
        requires
            self.wf(),
        ensures
            r == device_is_available(self@, ieee@),
    {
        match self.get_device(ieee) {
            Some(d) => d.available,
            None => false,
        }
    }
}

/// Evaluates conditions against a device inventory, when there is one.
pub struct ConditionEvaluator<'a> {
    network: Option<&'a DeviceInventory>,
}

impl<'a> ConditionEvaluator<'a> {
    /// The devices the evaluator consults.
    pub closed spec fn devices(&self) -> Option<Seq<ZigbeeDevice>> {
        match self.network {
            Some(n) => Some(n@),
            None => None,
        }
    }

    /// The inventory, when there is one, is well formed.
    pub closed spec fn wf(&self) -> bool {
        self.network matches Some(n) ==> n.wf()
    }

    /// An evaluator over this inventory; without one, device conditions are false.
    pub fn new(network: Option<&'a DeviceInventory>) -> (r: ConditionEvaluator<'a>)
        requires
            network matches Some(n) ==> n.wf(),
        ensures
            r.wf(),
            r.devices() == (match network {
                Some(n) => Some(n@),
                None => None::<Seq<ZigbeeDevice>>,
            }),
    {
        ConditionEvaluator { network }
    }

    /// The value of a condition at the given local time.
    pub fn evaluate_at(&self, condition: &Condition, now: LocalTime) -> (r: Result<bool, AutomationError>)
        requires
            self.wf(),
        ensures
            r == condition_value(*condition, now, self.devices()),
        decreases condition,
    {
        match condition {
            Condition::TimeRange { start, end } => self.evaluate_time_range(start, end, now),
            Condition::DayOfWeek { days } => Ok(evaluate_day_of_week(days, now.weekday)),
            Condition::DeviceAvailable { device_ieee, available } => self.evaluate_device_available(device_ieee, *available),
            Condition::And { conditions } => {
                assert(condition_value(*condition, now, self.devices()) == all_hold(conditions@, now, self.devices()));
                let mut i: usize = 0;
                assert(conditions@.subrange(0, conditions@.len() as int) =~= conditions@);
                while i < conditions.len()
                    invariant
                        i <= conditions@.len(),
                        self.wf(),
                        condition_value(*condition, now, self.devices()) == all_hold(conditions@, now, self.devices()),
                        *condition is And,
                        (*condition)->And_conditions == *conditions,
                        all_hold(conditions@, now, self.devices()) == all_hold(
                            conditions@.subrange(i as int, conditions@.len() as int),
                            now,
                            self.devices(),
                        ),
                    decreases conditions@.len() - i,
                {
                    let ghost rest = conditions@.subrange(i as int, conditions@.len() as int);
                    assert(rest[0] == conditions@[i as int]);
                    assert(rest.subrange(1, rest.len() as int) =~= conditions@.subrange(i + 1, conditions@.len() as int));
                    proof {
                        vstd::std_specs::vec::axiom_vec_index_decreases(*conditions, i as int);
                        assert(decreases_to!(*condition => (*condition)->And_conditions));
                        assert(decreases_to!(*condition => conditions[i as int]));
                    }
                    let v = self.evaluate_at(&conditions[i], now);
                    assert(all_hold(rest, now, self.devices()) == match v {
                        Err(e) => Err(e),
                        Ok(false) => Ok(false),
                        Ok(true) => all_hold(rest.subrange(1, rest.len() as int), now, self.devices()),
                    });
                    match v {
                        Err(e) => {
                            return Err(e);
                        },
                        Ok(false) => {
                            return Ok(false);
                        },
                        Ok(true) => {},
                    }
                    i = i + 1;
                }
                Ok(true)
            },
            Condition::Or { conditions } => {
                assert(condition_value(*condition, now, self.devices()) == any_holds(conditions@, now, self.devices()));
                let mut i: usize = 0;
                assert(conditions@.subrange(0, conditions@.len() as int) =~= conditions@);
                while i < conditions.len()
                    invariant
                        i <= conditions@.len(),
                        self.wf(),
                        condition_value(*condition, now, self.devices()) == any_holds(conditions@, now, self.devices()),
                        *condition is Or,
                        (*condition)->Or_conditions == *conditions,
                        any_holds(conditions@, now, self.devices()) == any_holds(
                            conditions@.subrange(i as int, conditions@.len() as int),
                            now,
                            self.devices(),
                        ),
                    decreases conditions@.len() - i,
                {
                    let ghost rest = conditions@.subrange(i as int, conditions@.len() as int);
                    assert(rest[0] == conditions@[i as int]);
                    assert(rest.subrange(1, rest.len() as int) =~= conditions@.subrange(i + 1, conditions@.len() as int));
                    proof {
                        vstd::std_specs::vec::axiom_vec_index_decreases(*conditions, i as int);
                        assert(decreases_to!(*condition => (*condition)->Or_conditions));
                        assert(decreases_to!(*condition => conditions[i as int]));
                    }
                    let v = self.evaluate_at(&conditions[i], now);
                    assert(any_holds(rest, now, self.devices()) == match v {
                        Err(e) => Err(e),
                        Ok(true) => Ok(true),
                        Ok(false) => any_holds(rest.subrange(1, rest.len() as int), now, self.devices()),
                    });
                    match v {
                        Err(e) => {
                            return Err(e);
                        },
                        Ok(true) => {
                            return Ok(true);
                        },
                        Ok(false) => {},
                    }
                    i = i + 1;
                }
                Ok(false)
            },
            Condition::Not { condition } => match self.evaluate_at(condition, now) {
                Ok(b) => Ok(!b),
                Err(e) => Err(e),
            },
        }
    }

    /// Whether all conditions hold at the given local time, evaluated in
    /// order until one fails.
    pub fn evaluate_all_at(&self, conditions: &Vec<Condition>, now: LocalTime) -> (r: Result<bool, AutomationError>)
        requires
            self.wf(),
        ensures
            r == all_hold(conditions@, now, self.devices()),
    {
        let mut i: usize = 0;
        assert(conditions@.subrange(0, conditions@.len() as int) =~= conditions@);
        while i < conditions.len()
            invariant
                i <= conditions@.len(),
                self.wf(),
                all_hold(conditions@, now, self.devices()) == all_hold(
                    conditions@.subrange(i as int, conditions@.len() as int),
                    now,
                    self.devices(),
                ),
            decreases conditions@.len() - i,
        {
            let ghost rest = conditions@.subrange(i as int, conditions@.len() as int);
            assert(rest[0] == conditions@[i as int]);
            assert(rest.subrange(1, rest.len() as int) =~= conditions@.subrange(i + 1, conditions@.len() as int));
            match self.evaluate_at(&conditions[i], now) {
                Err(e) => {
                    return Err(e);
                },
                Ok(false) => {
                    return Ok(false);
                },
                Ok(true) => {},
            }
            i = i + 1;
        }
        Ok(true)
    }

    /// The value of a condition now, on the local clock.
    pub fn evaluate(&self, condition: &Condition) -> (r: Result<bool, AutomationError>)
        requires
            self.wf(),
        ensures
            exists|t: LocalTime| t.seconds < 86400 && t.weekday < 7 && r == condition_value(*condition, t, self.devices()),
    {
        let now = local_now();
        self.evaluate_at(condition, now)
    }

    /// Whether all conditions hold now, on the local clock.
    pub fn evaluate_all(&self, conditions: &Vec<Condition>) -> (r: Result<bool, AutomationError>)
        requires
            self.wf(),
        ensures
            exists|t: LocalTime| t.seconds < 86400 && t.weekday < 7 && r == all_hold(conditions@, t, self.devices()),
    {
        let now = local_now();
        self.evaluate_all_at(conditions, now)
    }

    fn evaluate_time_range(&self, start: &String, end: &String, now: LocalTime) -> (r: Result<bool, AutomationError>)
        ensures
            r == condition_value(Condition::TimeRange { start: *start, end: *end }, now, self.devices()),
    {
        let s = match parse_time(start) {
            Ok(s) => s,
            Err(e) => {
                return Err(e);
            },
        };
        let e = match parse_time(end) {
            Ok(e) => e,
            Err(err) => {
                return Err(err);
            },
        };
        Ok(time_in_range(s, e, now))
    }

    fn evaluate_device_available(&self, device_ieee: &String, want: bool) -> (r: Result<bool, AutomationError>)
        requires
            self.wf(),
        ensures
            r == condition_value(Condition::DeviceAvailable { device_ieee: *device_ieee, available: want }, LocalTime { seconds: 0, nanos: 0, weekday: 0 }, self.devices()),
    {
        match self.network {
            None => Ok(false),
            Some(inv) => match parse_ieee_address(device_ieee.as_str()) {
                None => Err(AutomationError::InvalidAction(device_ieee.clone())),
                Some(ieee) => Ok(inv.is_available(&ieee) == want),
            },
        }
    }
}

/// Whether the local time lies between `start` and `end` (seconds after
/// midnight) inclusive; an end before the start wraps past midnight.
pub fn time_in_range(start: u32, end: u32, now: LocalTime) -> (r: bool)
    ensures
        r == in_time_range(start as int, end as int, now),
{
    let after_start = now.seconds >= start;
    let before_end = now.seconds < end || (now.seconds == end && now.nanos == 0);
    if start <= end {
        after_start && before_end
    } else {
        after_start || before_end
    }
}

/// Seconds since midnight of an `HH:MM` string.
pub fn parse_time(s: &String) -> (r: Result<u32, AutomationError>)
    ensures
        clock_time_of(s@) matches Some(hm) ==> hm.0 < 24 && hm.1 < 60,
        match clock_time_of(s@) {
            Some(hm) => r == Ok::<u32, AutomationError>(seconds_of(hm) as u32),
            None => r == Err::<u32, AutomationError>(AutomationError::InvalidTimeFormat(*s)),
        },
{
    match parse_clock_time(s.as_str()) {
        Some((h, m)) => Ok(h * 3600 + m * 60),
        None => Err(AutomationError::InvalidTimeFormat(s.clone())),
    }
}

/// Whether a weekday (0 = Sunday) is among `days`; an empty list allows every day.
pub fn evaluate_day_of_week(days: &Vec<u8>, weekday: u8) -> (r: bool)
    ensures
        r == (days@.len() == 0 || days@.contains(weekday)),
{
    if days.len() == 0 {
        return true;
    }
    let mut i: usize = 0;
    while i < days.len()
        invariant
            i <= days@.len(),
            forall|j: int| 0 <= j < i ==> days@[j] != weekday,
        decreases days@.len() - i,
    {
        if days[i] == weekday {
            return true;
        }
        i = i + 1;
    }
    false
}

/// Parses an IEEE address in display form, for a condition or an action.
pub fn parse_ieee_for_rule(s: &String) -> (r: Result<[u8; 8], AutomationError>)
    ensures
        match ieee_from_text(s@) {
            Some(k) => r matches Ok(a) && a@ == k,
            None => r == Err::<[u8; 8], AutomationError>(AutomationError::InvalidAction(*s)),
        },
{
    match parse_ieee_address(s.as_str()) {
        Some(a) => Ok(a),
        None => Err(AutomationError::InvalidAction(s.clone())),
    }
}

/// Double negation, the empty conjunction and the empty disjunction: the
/// evaluator follows boolean algebra.
pub proof fn lemma_condition_algebra(
    c: Condition,
    empty: Vec<Condition>,
    now: LocalTime,
    devices: Option<Seq<ZigbeeDevice>>,
)
    requires
        empty@.len() == 0,
    ensures
        condition_value(
            Condition::Not { condition: Box::new(Condition::Not { condition: Box::new(c) }) },
            now,
            devices,
        ) == condition_value(c, now, devices),
        condition_value(Condition::And { conditions: empty }, now, devices) == Ok::<bool, AutomationError>(true),
        condition_value(Condition::Or { conditions: empty }, now, devices) == Ok::<bool, AutomationError>(false),
{
    assert(all_hold(empty@, now, devices) == Ok::<bool, AutomationError>(true));
    assert(any_holds(empty@, now, devices) == Ok::<bool, AutomationError>(false));
    let inner = Condition::Not { condition: Box::new(c) };
    assert(condition_value(inner, now, devices) == match condition_value(c, now, devices) {
        Ok(b) => Ok::<bool, AutomationError>(!b),
        Err(e) => Err(e),
    });
}

} // verus!
