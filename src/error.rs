//! Errors of the automation engine.

use vstd::prelude::*;
use vstd::string::*;

verus! {

/// Errors of the automation engine.
#[derive(Debug, Clone, PartialEq, Eq)]
pub enum AutomationError {
    /// No automation has this id.
    NotFound(String),
    /// The automation is disabled.
    Disabled(String),
    /// A trigger is malformed.
    InvalidTrigger(String),
    /// A condition is malformed.
    InvalidCondition(String),
    /// An action is malformed (for instance, its device address).
    InvalidAction(String),
    /// A cron expression does not parse.
    InvalidCron(String),
    /// A time is not HH:MM.
    InvalidTimeFormat(String),
    /// An action names a device that is not known.
    DeviceNotFound(String),
    /// Switching a device failed.
    DeviceControlFailed(String),
    /// Automations trigger each other in a cycle.
    CircularReference(String),
    /// Reading or writing the store failed.
    Io(String),
    /// The store's contents do not decode.
    Json(String),
    /// The network layer failed.
    Network(String),
}

} // verus!

verus! {

/// The detail an error carries.
pub open spec fn error_detail(e: AutomationError) -> String {
    match e {
        AutomationError::NotFound(s) | AutomationError::Disabled(s)
        | AutomationError::InvalidTrigger(s) | AutomationError::InvalidCondition(s)
        | AutomationError::InvalidAction(s) | AutomationError::InvalidCron(s)
        | AutomationError::InvalidTimeFormat(s) | AutomationError::DeviceNotFound(s)
        | AutomationError::DeviceControlFailed(s) | AutomationError::CircularReference(s)
        | AutomationError::Io(s) | AutomationError::Json(s) | AutomationError::Network(s) => s,
    }
}

impl AutomationError {
    /// The kind of error, as a short phrase.
    pub fn label(&self) -> (r: &'static str)
    {
        match self {
            AutomationError::NotFound(_) => "Automation not found",
            AutomationError::Disabled(_) => "Automation is disabled",
            AutomationError::InvalidTrigger(_) => "Invalid trigger",
            AutomationError::InvalidCondition(_) => "Invalid condition",
            AutomationError::InvalidAction(_) => "Invalid action",
            AutomationError::InvalidCron(_) => "Invalid cron expression",
            AutomationError::InvalidTimeFormat(_) => "Invalid time format",
            AutomationError::DeviceNotFound(_) => "Device not found",
            AutomationError::DeviceControlFailed(_) => "Device control failed",
            AutomationError::CircularReference(_) => "Circular automation reference detected",
            AutomationError::Io(_) => "IO error",
            AutomationError::Json(_) => "JSON error",
            AutomationError::Network(_) => "Network error",
        }
    }

    /// The detail the error carries.
    pub fn detail(&self) -> (r: &String)
        ensures
            *r == error_detail(*self),
    {
        match self {
            AutomationError::NotFound(s) | AutomationError::Disabled(s)
            | AutomationError::InvalidTrigger(s) | AutomationError::InvalidCondition(s)
            | AutomationError::InvalidAction(s) | AutomationError::InvalidCron(s)
            | AutomationError::InvalidTimeFormat(s) | AutomationError::DeviceNotFound(s)
            | AutomationError::DeviceControlFailed(s) | AutomationError::CircularReference(s)
            | AutomationError::Io(s) | AutomationError::Json(s) | AutomationError::Network(s) => s,
        }
    }

    /// The message shown for the error: its kind, a colon, its detail.
    pub fn message(&self) -> (r: String)
        ensures
            exists|kind: Seq<char>| r@ == kind + seq![':', ' '] + error_detail(*self)@,
    {
        let mut m = String::new();
        proof {
            reveal_strlit(": ");
        }
        m.append(self.label());
        m.append(": ");
        let ghost kind = m@.subrange(0, m@.len() - 2);
        assert(m@ =~= kind + seq![':', ' ']);
        m.append(self.detail().as_str());
        m
    }
}

} // verus!
