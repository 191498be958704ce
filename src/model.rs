//! Automation rules: triggers, conditions, actions, and the requests that
//! create and update them.

use vstd::prelude::*;

verus! {

/// An automation rule.
#[derive(Debug)]
pub struct Automation {
    /// Unique identifier, fixed at creation.
    pub id: String,
    /// Human-readable name.
    pub name: String,
    /// Optional description.
    pub description: Option<String>,
    /// Whether the rule is active.
    pub enabled: bool,
    /// What starts it.
    pub trigger: Trigger,
    /// Conditions that must all hold.
    pub conditions: Vec<Condition>,
    /// Actions run in order.
    pub actions: Vec<Action>,
    /// Creation time (ISO 8601, UTC).
    pub created_at: String,
    /// Last modification time (ISO 8601, UTC).
    pub updated_at: String,
}

/// What starts an automation.
#[derive(Debug, Clone)]
pub enum Trigger {
    /// A state change of a device.
    DeviceState { device_ieee: String, endpoint: Option<u8>, state_change: StateChange },
    /// A schedule.
    Schedule { schedule: ScheduleSpec },
    /// Only an explicit request.
    Manual,
}

/// State changes a device trigger watches for.
#[derive(Debug, Clone, Copy, PartialEq, Eq, Structural)]
pub enum StateChange {
    Any,
    Available,
    Unavailable,
    Joined,
    Left,
    TurnedOn,
    TurnedOff,
    Toggled,
}

/// When a scheduled automation fires.
#[derive(Debug, Clone)]
pub enum ScheduleSpec {
    /// At a time of day (HH:MM, 24-hour), on the listed weekdays
    /// (0 = Sunday; none listed means every day).
    TimeOfDay { time: String, days: Vec<u8> },
    /// Every so many seconds.
    Interval { seconds: u64 },
    /// By a cron expression.
    Cron { expression: String },
}

/// Conditions that must hold for the actions to run.
#[derive(Debug)]
pub enum Condition {
    /// Local time between start and end (HH:MM); an end before the start
    /// wraps past midnight.
    TimeRange { start: String, end: String },
    /// Local weekday among these (0 = Sunday); none listed means every day.
    DayOfWeek { days: Vec<u8> },
    /// A device is (or is not) available.
    DeviceAvailable { device_ieee: String, available: bool },
    /// All of these hold.
    And { conditions: Vec<Condition> },
    /// One of these holds.
    Or { conditions: Vec<Condition> },
    /// This does not hold.
    Not { condition: Box<Condition> },
}

/// Actions an automation performs.
#[derive(Debug, Clone)]
pub enum Action {
    /// Switch a device endpoint.
    DeviceControl { device_ieee: String, endpoint: u8, command: DeviceCommand },
    /// Wait.
    Delay { seconds: u64 },
    /// Run another automation (reserved).
    TriggerAutomation { automation_id: String },
    /// Write a log line.
    Log { message: String, level: LogLevel },
}

/// Commands of a device control action.
#[derive(Debug, Clone, Copy, PartialEq, Eq, Structural)]
pub enum DeviceCommand {
    TurnOn,
    TurnOff,
    Toggle,
}

/// Levels of a log action.
#[derive(Debug, Clone, Copy, PartialEq, Eq, Structural)]
pub enum LogLevel {
    Debug,
    Info,
    Warn,
    Error,
}

impl Default for LogLevel {
    fn default() -> (r: Self)
        ensures
            r == LogLevel::Info,
    {
        LogLevel::Info
    }
}

/// A request to create an automation.
#[derive(Debug)]
pub struct CreateAutomationRequest {
    pub name: String,
    pub description: Option<String>,
    pub enabled: bool,
    pub trigger: Trigger,
    pub conditions: Vec<Condition>,
    pub actions: Vec<Action>,
}

/// Whether a created automation is enabled when the request does not say.
pub fn default_enabled() -> (r: bool)
    ensures
        r,
{
    true
}

/// A partial update: each field given replaces the automation's own.
#[derive(Debug)]
pub struct UpdateAutomationRequest {
    pub name: Option<String>,
    pub description: Option<Option<String>>,
    pub enabled: Option<bool>,
    pub trigger: Option<Trigger>,
    pub conditions: Option<Vec<Condition>>,
    pub actions: Option<Vec<Action>>,
}

impl Default for UpdateAutomationRequest {
    fn default() -> (r: Self)
        ensures
            r.name is None,
            r.description is None,
            r.enabled is None,
            r.trigger is None,
            r.conditions is None,
            r.actions is None,
    {
        UpdateAutomationRequest {
            name: None,
            description: None,
            enabled: None,
            trigger: None,
            conditions: None,
            actions: None,
        }
    }
}

} // verus!

verus! {

/// Relies on uuid's `Uuid::new_v4` and its `Display` text, the hyphenated
/// lower-case form of 36 characters.
#[verifier::external_body]
fn new_automation_id() -> (r: String)
    ensures
        r@.len() == 36,
{
    uuid::Uuid::new_v4().to_string()
}

/// Relies on chrono's `Utc::now` and `DateTime::to_rfc3339`: the current
/// time as ISO 8601 text.
#[verifier::external_body]
pub(crate) fn utc_now_rfc3339() -> (r: String) {
    chrono::Utc::now().to_rfc3339()
}

impl Automation {
    /// A new automation from a request, with the given id and creation time.
    pub fn from_request_at(request: CreateAutomationRequest, id: String, now: String) -> (r: Automation)
        ensures
            r.id == id,
            r.name == request.name,
            r.description == request.description,
            r.enabled == request.enabled,
            r.trigger == request.trigger,
            r.conditions == request.conditions,
            r.actions == request.actions,
            r.created_at == now,
            r.updated_at == now,
    {
        let updated_at = now.clone();
        Automation {
            id,
            name: request.name,
            description: request.description,
            enabled: request.enabled,
            trigger: request.trigger,
            conditions: request.conditions,
            actions: request.actions,
            created_at: now,
            updated_at,
        }
    }

    /// A new automation from a request, with a fresh random id, created now.
    pub fn from_request(request: CreateAutomationRequest) -> (r: Automation)
        ensures
            r.id@.len() == 36,
            r.name == request.name,
            r.description == request.description,
            r.enabled == request.enabled,
            r.trigger == request.trigger,
            r.conditions == request.conditions,
            r.actions == request.actions,
            r.created_at == r.updated_at,
    {
        let id = new_automation_id();
        let now = utc_now_rfc3339();
        Self::from_request_at(request, id, now)
    }

    /// Applies a partial update at the given time: each field the update
    /// gives replaces this automation's, the id and creation time stay, and
    /// the modification time becomes `now`.
    pub fn apply_update_at(&mut self, update: UpdateAutomationRequest, now: String)
        ensures
            final(self).id == old(self).id,
            final(self).created_at == old(self).created_at,
            final(self).updated_at == now,
            final(self).name == (match update.name {
                Some(n) => n,
                None => old(self).name,
            }),
            final(self).description == (match update.description {
                Some(d) => d,
                None => old(self).description,
            }),
            final(self).enabled == (match update.enabled {
                Some(e) => e,
                None => old(self).enabled,
            }),
            final(self).trigger == (match update.trigger {
                Some(t) => t,
                None => old(self).trigger,
            }),
            final(self).conditions == (match update.conditions {
                Some(c) => c,
                None => old(self).conditions,
            }),
            final(self).actions == (match update.actions {
                Some(a) => a,
                None => old(self).actions,
            }),
    {
        match update.name {
            Some(n) => {
                self.name = n;
            },
            None => {},
        }
        match update.description {
            Some(d) => {
                self.description = d;
            },
            None => {},
        }
        match update.enabled {
            Some(e) => {
                self.enabled = e;
            },
            None => {},
        }
        match update.trigger {
            Some(t) => {
                self.trigger = t;
            },
            None => {},
        }
        match update.conditions {
            Some(c) => {
                self.conditions = c;
            },
            None => {},
        }
        match update.actions {
            Some(a) => {
                self.actions = a;
            },
            None => {},
        }
        self.updated_at = now;
    }

    /// Applies a partial update now.
    pub fn apply_update(&mut self, update: UpdateAutomationRequest)
        ensures
            final(self).id == old(self).id,
            final(self).created_at == old(self).created_at,
            final(self).name == (match update.name {
                Some(n) => n,
                None => old(self).name,
            }),
            final(self).description == (match update.description {
                Some(d) => d,
                None => old(self).description,
            }),
            final(self).enabled == (match update.enabled {
                Some(e) => e,
                None => old(self).enabled,
            }),
            final(self).trigger == (match update.trigger {
                Some(t) => t,
                None => old(self).trigger,
            }),
            final(self).conditions == (match update.conditions {
                Some(c) => c,
                None => old(self).conditions,
            }),
            final(self).actions == (match update.actions {
                Some(a) => a,
                None => old(self).actions,
            }),
    {
        let now = utc_now_rfc3339();
        self.apply_update_at(update, now);
    }
}

} // verus!
