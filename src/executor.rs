//! Running an automation's actions: what each action asks for, and the run
//! that takes them strictly in order and stops at the first failure.

use vstd::prelude::*;
use crate::error::{AutomationError, error_detail};
use crate::evaluator::parse_ieee_for_rule;
use crate::hex::ieee_from_text;
use crate::model::{Action, DeviceCommand, LogLevel};
use crate::types::OnOffCommand;

verus! {

/// Events of an action run.
#[derive(Debug, Clone)]
pub enum ExecutorEvent {
    /// An action started.
    ActionStarted { automation_id: String, action_index: usize },
    /// An action finished.
    ActionCompleted { automation_id: String, action_index: usize },
    /// An action failed; the run stops.
    ActionFailed { automation_id: String, action_index: usize, error: String },
}

/// What performing one action takes.
#[derive(Debug, Clone)]
pub enum ActionStep {
    /// Send an On/Off command to a device endpoint.
    Switch { ieee: [u8; 8], endpoint: u8, command: OnOffCommand },
    /// Wait this many seconds.
    Wait { seconds: u64 },
    /// Write a log line.
    Log { level: LogLevel, message: String },
    /// Nothing to do here (another automation's run is the engine's
    /// concern); a warning is logged.
    Skip,
}

/// The On/Off command of a device command.
pub open spec fn switch_command(c: DeviceCommand) -> OnOffCommand {
    match c {
        DeviceCommand::TurnOn => OnOffCommand::On,
        DeviceCommand::TurnOff => OnOffCommand::Off,
        DeviceCommand::Toggle => OnOffCommand::Toggle,
    }
}

/// What one action asks for. Device control needs a network, then a valid
/// address.
pub fn plan_action(action: &Action, network_present: bool) -> (r: Result<ActionStep, AutomationError>)
    ensures
        match *action {
            Action::DeviceControl { device_ieee, endpoint, command } => if !network_present {
                r matches Err(AutomationError::DeviceControlFailed(_))
            } else {
                match ieee_from_text(device_ieee@) {
                    None => r == Err::<ActionStep, AutomationError>(AutomationError::InvalidAction(device_ieee)),
                    Some(k) => r matches Ok(ActionStep::Switch { ieee, endpoint: ep, command: c })
                        && ieee@ == k && ep == endpoint && c == switch_command(command),
                }
            },
            Action::Delay { seconds } => r matches Ok(ActionStep::Wait { seconds: s }) && s == seconds,
            Action::TriggerAutomation { .. } => r matches Ok(ActionStep::Skip),
            Action::Log { message, level } => r matches Ok(ActionStep::Log { level: l, message: m })
                && l == level && m == message,
        },
{
    match action {
        Action::DeviceControl { device_ieee, endpoint, command } => {
            if !network_present {
                return Err(AutomationError::DeviceControlFailed("No network available".to_string()));
            }
            let ieee = parse_ieee_for_rule(device_ieee)?;
            let c = match command {
                DeviceCommand::TurnOn => OnOffCommand::On,
                DeviceCommand::TurnOff => OnOffCommand::Off,
                DeviceCommand::Toggle => OnOffCommand::Toggle,
            };
            Ok(ActionStep::Switch { ieee, endpoint: *endpoint, command: c })
        },
        Action::Delay { seconds } => Ok(ActionStep::Wait { seconds: *seconds }),
        Action::TriggerAutomation { .. } => Ok(ActionStep::Skip),
        Action::Log { message, level } => Ok(ActionStep::Log { level: *level, message: message.clone() }),
    }
}

/// A run over an automation's actions. Actions start strictly in list
/// order, each after the previous one completed; the first failure ends
/// the run.
pub struct ActionRun {
    automation_id: String,
    total: usize,
    next: usize,
    failed: bool,
}

impl ActionRun {
    /// The automation the run belongs to.
    pub closed spec fn spec_id(&self) -> String {
        self.automation_id
    }

    /// How many actions the automation has.
    pub closed spec fn spec_total(&self) -> nat {
        self.total as nat
    }

    /// How many actions have completed.
    pub closed spec fn completed(&self) -> nat {
        self.next as nat
    }

    /// Whether an action failed.
    pub closed spec fn spec_failed(&self) -> bool {
        self.failed
    }

    /// A run of `total` actions, none started.
    pub fn new(automation_id: String, total: usize) -> (r: ActionRun)
        ensures
            r.spec_id() == automation_id,
            r.spec_total() == total,
            r.completed() == 0,
            !r.spec_failed(),
    {
        ActionRun { automation_id, total, next: 0, failed: false }
    }

    /// The action to run next, with its start event; none when every action
    /// completed or one failed.
    pub fn next_action(&self) -> (r: Option<(usize, ExecutorEvent)>)
        ensures
            (self.spec_failed() || self.completed() >= self.spec_total()) ==> r is None,
            (!self.spec_failed() && self.completed() < self.spec_total()) ==> (r matches Some((i, ev))
                && i == self.completed() && ev == (ExecutorEvent::ActionStarted {
                automation_id: self.spec_id(),
                action_index: i,
            })),
    {
        if self.failed || self.next >= self.total {
            None
        } else {
            Some((self.next, ExecutorEvent::ActionStarted { automation_id: self.automation_id.clone(), action_index: self.next }))
        }
    }

    /// Records how the current action ended and returns the matching event:
    /// on success the next action becomes current; on failure the run ends.
    pub fn finish(&mut self, outcome: &Result<(), AutomationError>) -> (r: ExecutorEvent)
        requires
            !old(self).spec_failed(),
            old(self).completed() < old(self).spec_total(),
        ensures
            final(self).spec_id() == old(self).spec_id(),
            final(self).spec_total() == old(self).spec_total(),
            outcome is Ok ==> final(self).completed() == old(self).completed() + 1 && !final(self).spec_failed()
                && r == (ExecutorEvent::ActionCompleted {
                automation_id: old(self).spec_id(),
                action_index: old(self).completed() as usize,
            }),
            outcome matches Err(e) ==> final(self).completed() == old(self).completed() && final(self).spec_failed()
                && (r matches ExecutorEvent::ActionFailed { automation_id, action_index, error }
                && automation_id == old(self).spec_id() && action_index == old(self).completed()
                && exists|kind: Seq<char>| error@ == kind + seq![':', ' '] + error_detail(*e)@),
    {
        let index = self.next;
        match outcome {
            Ok(()) => {
                self.next = self.next + 1;
                ExecutorEvent::ActionCompleted { automation_id: self.automation_id.clone(), action_index: index }
            },
            Err(e) => {
                self.failed = true;
                ExecutorEvent::ActionFailed {
                    automation_id: self.automation_id.clone(),
                    action_index: index,
                    error: e.message(),
                }
            },
        }
    }
}

} // verus!
