use casita::device::ZigbeeDevice;
use casita::engine::{trigger_matches, AutomationStore};
use casita::error::AutomationError;
use casita::evaluator::{evaluate_day_of_week, parse_ieee_for_rule, parse_time, time_in_range, ConditionEvaluator, LocalTime};
use casita::executor::{plan_action, ActionRun, ActionStep, ExecutorEvent};
use casita::hex::parse_ieee_address;
use casita::model::{
    default_enabled, Action, Automation, Condition, CreateAutomationRequest, DeviceCommand, LogLevel,
    ScheduleSpec, StateChange, Trigger, UpdateAutomationRequest,
};
use casita::network::{DeviceInventory, NetworkEvent};
use casita::scheduler::{next_occurrence_days, plan_schedule, Scheduler, TimerPlan, TimerStarter};
use casita::types::OnOffCommand;

const IEEE: [u8; 8] = [0x77, 0x66, 0x55, 0x44, 0x33, 0x22, 0x11, 0x00];

fn at(h: u32, m: u32, weekday: u8) -> LocalTime {
    LocalTime { seconds: h * 3600 + m * 60, nanos: 0, weekday }
}

fn range(start: &str, end: &str) -> Condition {
    Condition::TimeRange { start: start.to_string(), end: end.to_string() }
}

fn eval(c: &Condition, now: LocalTime) -> Result<bool, AutomationError> {
    ConditionEvaluator::new(None).evaluate_at(c, now)
}

#[test]
fn test_parse_ieee_address() {
    let result = parse_ieee_address("00:11:22:33:44:55:66:77").unwrap();
    assert_eq!(result, [0x77, 0x66, 0x55, 0x44, 0x33, 0x22, 0x11, 0x00]);
}

#[test]
fn test_day_of_week_empty() {
    assert!(evaluate_day_of_week(&vec![], 3));
}

#[test]
fn day_of_week_sets() {
    for d in 0..7 {
        assert!(eval(&Condition::DayOfWeek { days: vec![] }, at(12, 0, d)).unwrap());
    }
    assert!(eval(&Condition::DayOfWeek { days: vec![0] }, at(12, 0, 0)).unwrap());
    assert!(!eval(&Condition::DayOfWeek { days: vec![0] }, at(12, 0, 1)).unwrap());
}

#[test]
fn time_range_wrapping_past_midnight() {
    let c = range("22:00", "06:00");
    assert!(eval(&c, at(23, 0, 1)).unwrap());
    assert!(!eval(&c, at(10, 0, 1)).unwrap());
    assert!(eval(&c, at(5, 0, 1)).unwrap());
    assert!(eval(&c, at(23, 15, 1)).unwrap());
    assert!(!eval(&c, at(7, 0, 1)).unwrap());
    assert!(eval(&c, at(0, 30, 1)).unwrap());
}

#[test]
fn time_range_bounds_inclusive() {
    let c = range("09:00", "17:00");
    assert!(eval(&c, at(17, 0, 2)).unwrap());
    assert!(!eval(&c, at(17, 1, 2)).unwrap());
    assert!(eval(&c, at(9, 0, 2)).unwrap());
    assert!(!eval(&c, at(8, 59, 2)).unwrap());
    let late = LocalTime { seconds: 17 * 3600, nanos: 5, weekday: 2 };
    assert!(!eval(&c, late).unwrap());
}

#[test]
fn time_range_bad_format() {
    assert_eq!(eval(&range("25:00", "06:00"), at(1, 0, 0)), Err(AutomationError::InvalidTimeFormat("25:00".to_string())));
    assert_eq!(eval(&range("08:00", "noon"), at(1, 0, 0)), Err(AutomationError::InvalidTimeFormat("noon".to_string())));
    assert_eq!(parse_time(&"07:30".to_string()), Ok(27000));
}

#[test]
fn condition_algebra() {
    let base = [range("22:00", "06:00"), Condition::DayOfWeek { days: vec![3] }];
    for c in base {
        for now in [at(23, 0, 3), at(10, 0, 3), at(23, 0, 4)] {
            let nn = Condition::Not { condition: Box::new(Condition::Not { condition: Box::new(clone_condition(&c)) }) };
            assert_eq!(eval(&nn, now), eval(&c, now));
        }
    }
    assert_eq!(eval(&Condition::And { conditions: vec![] }, at(1, 0, 0)), Ok(true));
    assert_eq!(eval(&Condition::Or { conditions: vec![] }, at(1, 0, 0)), Ok(false));
}

fn clone_condition(c: &Condition) -> Condition {
    match c {
        Condition::TimeRange { start, end } => range(start, end),
        Condition::DayOfWeek { days } => Condition::DayOfWeek { days: days.clone() },
        _ => panic!("not used"),
    }
}

#[test]
fn and_or_short_circuit() {
    let bad = range("xx", "06:00");
    let and = Condition::And { conditions: vec![Condition::DayOfWeek { days: vec![5] }, range("xx", "06:00")] };
    assert_eq!(eval(&and, at(1, 0, 0)), Ok(false));
    assert!(eval(&and, at(1, 0, 5)).is_err());
    let or = Condition::Or { conditions: vec![Condition::DayOfWeek { days: vec![] }, bad] };
    assert_eq!(eval(&or, at(1, 0, 0)), Ok(true));
}

#[test]
fn device_available_condition() {
    let c = Condition::DeviceAvailable { device_ieee: "00:11:22:33:44:55:66:77".to_string(), available: true };
    assert_eq!(eval(&c, at(1, 0, 0)), Ok(false));
    let mut inv = DeviceInventory::new();
    inv.upsert_device(ZigbeeDevice::new(IEEE, 1));
    let ev = ConditionEvaluator::new(Some(&inv));
    assert_eq!(ev.evaluate_at(&c, at(1, 0, 0)), Ok(true));
    let gone = Condition::DeviceAvailable { device_ieee: "00:11:22:33:44:55:66:78".to_string(), available: false };
    assert_eq!(ev.evaluate_at(&gone, at(1, 0, 0)), Ok(true));
    let bad = Condition::DeviceAvailable { device_ieee: "zz".to_string(), available: true };
    assert_eq!(ev.evaluate_at(&bad, at(1, 0, 0)), Err(AutomationError::InvalidAction("zz".to_string())));
    assert!(ev.evaluate_all_at(&vec![c], at(1, 0, 0)).unwrap());
}

fn request(trigger: Trigger, enabled: bool) -> CreateAutomationRequest {
    CreateAutomationRequest {
        name: "tick".to_string(),
        description: None,
        enabled,
        trigger,
        conditions: vec![],
        actions: vec![Action::Log { message: "tick".to_string(), level: LogLevel::Info }],
    }
}

#[test]
fn creation_and_update() {
    assert!(default_enabled());
    let a = Automation::from_request(request(Trigger::Manual, true));
    assert_eq!(a.id.len(), 36);
    assert_eq!(a.created_at, a.updated_at);
    let mut a = Automation::from_request_at(request(Trigger::Manual, true), "a1".to_string(), "T0".to_string());
    assert_eq!(a.id, "a1");
    assert_eq!(a.created_at, "T0");
    let upd = UpdateAutomationRequest { enabled: Some(false), name: Some("tock".to_string()), ..Default::default() };
    a.apply_update_at(upd, "T1".to_string());
    assert!(!a.enabled);
    assert_eq!(a.name, "tock");
    assert_eq!(a.updated_at, "T1");
    assert_eq!(a.created_at, "T0");
    assert_eq!(a.id, "a1");
}

#[test]
fn store_operations() {
    let mut store = AutomationStore::new();
    store.insert(Automation::from_request_at(request(Trigger::Manual, true), "a".to_string(), "t".to_string()));
    store.insert(Automation::from_request_at(request(Trigger::Manual, false), "b".to_string(), "t".to_string()));
    assert_eq!(store.list().len(), 2);
    assert!(store.manual_target(&"a".to_string()).is_ok());
    assert_eq!(store.manual_target(&"b".to_string()).unwrap_err(), AutomationError::Disabled("b".to_string()));
    assert_eq!(store.manual_target(&"c".to_string()).unwrap_err(), AutomationError::NotFound("c".to_string()));
    store.update(&"b".to_string(), UpdateAutomationRequest { enabled: Some(true), ..Default::default() }, "t2".to_string()).unwrap();
    assert!(store.get(&"b".to_string()).unwrap().enabled);
    assert_eq!(store.update(&"z".to_string(), UpdateAutomationRequest::default(), "t".to_string()), Err(AutomationError::NotFound("z".to_string())));
    assert_eq!(store.remove(&"a".to_string()).unwrap().id, "a");
    assert!(store.remove(&"a".to_string()).is_err());
    assert_eq!(store.list().len(), 1);
}

fn device_trigger(change: StateChange, endpoint: Option<u8>) -> Trigger {
    Trigger::DeviceState { device_ieee: "00:11:22:33:44:55:66:77".to_string(), endpoint, state_change: change }
}

#[test]
fn trigger_matching() {
    let on = NetworkEvent::DeviceStateChanged { ieee_address: IEEE, endpoint: 1, state_on: true };
    assert!(trigger_matches(&device_trigger(StateChange::TurnedOn, None), &on));
    assert!(!trigger_matches(&device_trigger(StateChange::TurnedOff, None), &on));
    assert!(trigger_matches(&device_trigger(StateChange::Toggled, Some(1)), &on));
    assert!(!trigger_matches(&device_trigger(StateChange::Any, Some(2)), &on));
    assert!(!trigger_matches(&device_trigger(StateChange::Joined, None), &on));
    let joined = NetworkEvent::DeviceJoined(ZigbeeDevice::new(IEEE, 1));
    assert!(trigger_matches(&device_trigger(StateChange::Joined, None), &joined));
    assert!(trigger_matches(&device_trigger(StateChange::Any, None), &joined));
    let left = NetworkEvent::DeviceLeft { ieee_address: IEEE };
    assert!(trigger_matches(&device_trigger(StateChange::Left, None), &left));
    let updated = NetworkEvent::DeviceUpdated { ieee_address: IEEE };
    assert!(!trigger_matches(&device_trigger(StateChange::Left, None), &updated));
    assert!(trigger_matches(&device_trigger(StateChange::Any, None), &updated));
    let other = NetworkEvent::DeviceUpdated { ieee_address: [0; 8] };
    assert!(!trigger_matches(&device_trigger(StateChange::Any, None), &other));
    assert!(!trigger_matches(&Trigger::Manual, &updated));

    let mut store = AutomationStore::new();
    store.insert(Automation::from_request_at(request(device_trigger(StateChange::Any, None), true), "x".to_string(), "t".to_string()));
    store.insert(Automation::from_request_at(request(device_trigger(StateChange::Any, None), false), "y".to_string(), "t".to_string()));
    assert_eq!(store.triggered_by(&updated), vec![0]);
}

fn scheduled(spec: ScheduleSpec, enabled: bool) -> Automation {
    Automation::from_request_at(request(Trigger::Schedule { schedule: spec }, enabled), "s".to_string(), "t".to_string())
}

#[test]
fn schedule_plans() {
    assert!(matches!(plan_schedule(&scheduled(ScheduleSpec::Interval { seconds: 2 }, true)), Ok(TimerPlan::Interval { seconds: 2 })));
    assert!(matches!(plan_schedule(&scheduled(ScheduleSpec::Interval { seconds: 2 }, false)), Ok(TimerPlan::Idle)));
    match plan_schedule(&scheduled(ScheduleSpec::TimeOfDay { time: "07:30".to_string(), days: vec![1, 2] }, true)) {
        Ok(TimerPlan::TimeOfDay { seconds, days }) => {
            assert_eq!(seconds, 27000);
            assert_eq!(days, vec![1, 2]);
        }
        _ => panic!("expected a time-of-day plan"),
    }
    assert_eq!(
        plan_schedule(&scheduled(ScheduleSpec::TimeOfDay { time: "7h".to_string(), days: vec![] }, true)).err(),
        Some(AutomationError::InvalidTimeFormat("7h".to_string()))
    );
    assert!(matches!(plan_schedule(&scheduled(ScheduleSpec::Cron { expression: "0 30 9 * * *".to_string() }, true)), Ok(TimerPlan::Cron(_))));
    assert!(matches!(plan_schedule(&scheduled(ScheduleSpec::Cron { expression: "not cron".to_string() }, true)), Err(AutomationError::InvalidCron(_))));
    let manual = Automation::from_request_at(request(Trigger::Manual, true), "m".to_string(), "t".to_string());
    assert!(matches!(plan_schedule(&manual), Ok(TimerPlan::Idle)));
}

#[test]
fn register_twice_keeps_one_timer() {
    let mut table: Scheduler<u32> = Scheduler::new();
    let id = "auto".to_string();
    assert_eq!(table.remove(&id), None);
    table.install(id.clone(), 1);
    assert_eq!(table.remove(&id), Some(1));
    table.install(id.clone(), 2);
    table.install("other".to_string(), 3);
    assert_eq!(table.active_count(), 2);
    assert_eq!(table.remove(&id), Some(2));
    assert_eq!(table.active_count(), 1);
}

#[test]
fn next_time_of_day() {
    assert_eq!(next_occurrence_days(at(6, 0, 1), 7 * 3600, &vec![]), 0);
    assert_eq!(next_occurrence_days(at(8, 0, 1), 7 * 3600, &vec![]), 1);
    assert_eq!(next_occurrence_days(at(7, 0, 1), 7 * 3600, &vec![]), 1);
    assert_eq!(next_occurrence_days(at(8, 0, 1), 7 * 3600, &vec![5]), 4);
    assert_eq!(next_occurrence_days(at(6, 0, 1), 7 * 3600, &vec![1]), 0);
    assert_eq!(next_occurrence_days(at(8, 0, 1), 7 * 3600, &vec![1]), 7);
    assert_eq!(next_occurrence_days(at(8, 0, 1), 7 * 3600, &vec![9]), 8);
}

#[test]
fn action_planning() {
    let a = Action::DeviceControl { device_ieee: "00:11:22:33:44:55:66:77".to_string(), endpoint: 1, command: DeviceCommand::Toggle };
    match plan_action(&a, true) {
        Ok(ActionStep::Switch { ieee, endpoint, command }) => {
            assert_eq!(ieee, IEEE);
            assert_eq!(endpoint, 1);
            assert_eq!(command, OnOffCommand::Toggle);
        }
        _ => panic!("expected a switch step"),
    }
    assert!(matches!(plan_action(&a, false), Err(AutomationError::DeviceControlFailed(_))));
    let bad = Action::DeviceControl { device_ieee: "nope".to_string(), endpoint: 1, command: DeviceCommand::TurnOn };
    assert_eq!(plan_action(&bad, true).err(), Some(AutomationError::InvalidAction("nope".to_string())));
    assert!(matches!(plan_action(&Action::Delay { seconds: 3 }, true), Ok(ActionStep::Wait { seconds: 3 })));
    assert!(matches!(plan_action(&Action::TriggerAutomation { automation_id: "x".to_string() }, true), Ok(ActionStep::Skip)));
    assert!(parse_ieee_for_rule(&"0011223344556677".to_string()).is_ok());
}

#[test]
fn action_run_stops_at_first_failure() {
    let mut run = ActionRun::new("a".to_string(), 3);
    let (i, ev) = run.next_action().unwrap();
    assert_eq!(i, 0);
    assert!(matches!(ev, ExecutorEvent::ActionStarted { action_index: 0, .. }));
    assert!(matches!(run.finish(&Ok(())), ExecutorEvent::ActionCompleted { action_index: 0, .. }));
    let (i, _) = run.next_action().unwrap();
    assert_eq!(i, 1);
    match run.finish(&Err(AutomationError::DeviceNotFound("d".to_string()))) {
        ExecutorEvent::ActionFailed { action_index, error, .. } => {
            assert_eq!(action_index, 1);
            assert_eq!(error, "Device not found: d");
        }
        _ => panic!("expected a failure"),
    }
    assert!(run.next_action().is_none());
}

struct CountingStarter {
    started: u32,
}

impl TimerStarter<u32> for CountingStarter {
    fn start(&mut self, _automation_id: &String, _plan: TimerPlan) -> u32 {
        self.started += 1;
        self.started
    }
}

#[test]
fn scheduler_register_is_idempotent() {
    let mut sched: Scheduler<u32> = Scheduler::new();
    let mut starter = CountingStarter { started: 0 };
    let a = scheduled(ScheduleSpec::Interval { seconds: 2 }, true);
    let (stopped, r) = sched.register(&a, &mut starter);
    assert!(stopped.is_none() && r.is_ok());
    let (stopped, r) = sched.register(&a, &mut starter);
    assert_eq!(stopped, Some(1));
    assert!(r.is_ok());
    assert_eq!(sched.active_count(), 1);
    let off = scheduled(ScheduleSpec::Interval { seconds: 2 }, false);
    let (stopped, r) = sched.register(&off, &mut starter);
    assert_eq!(stopped, Some(2));
    assert!(r.is_ok());
    assert_eq!(sched.active_count(), 0);
    let bad = scheduled(ScheduleSpec::Cron { expression: "nope".to_string() }, true);
    let (_, r) = sched.register(&bad, &mut starter);
    assert!(matches!(r, Err(AutomationError::InvalidCron(_))));
    assert_eq!(sched.active_count(), 0);
    let manual = Automation::from_request_at(request(Trigger::Manual, true), "s".to_string(), "t".to_string());
    sched.register(&a, &mut starter);
    let (stopped, _) = sched.register(&manual, &mut starter);
    assert!(stopped.is_some());
    assert_eq!(sched.active_count(), 0);
}

#[test]
fn time_range_on_parsed_times() {
    let night = (22 * 3600, 6 * 3600);
    assert!(time_in_range(night.0, night.1, at(23, 0, 0)));
    assert!(!time_in_range(night.0, night.1, at(10, 0, 0)));
    assert!(time_in_range(night.0, night.1, at(5, 0, 0)));
    let day = (9 * 3600, 17 * 3600);
    assert!(time_in_range(day.0, day.1, at(17, 0, 0)));
    assert!(!time_in_range(day.0, day.1, at(17, 1, 0)));
}
