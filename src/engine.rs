//! The automation engine's rules: the store of automations keyed by id,
//! which automations a network event triggers, and the checks before a run.

use vstd::prelude::*;
use crate::error::AutomationError;
use crate::hex::{format_reversed_hex, reversed_hex};
use crate::model::{Automation, StateChange, Trigger, UpdateAutomationRequest};
use crate::network::NetworkEvent;

verus! {

/// Events the engine publishes.
#[derive(Debug, Clone)]
pub enum AutomationEvent {
    /// An automation started, and why.
    Triggered { automation_id: String, trigger_reason: String },
    /// One of its actions ran.
    ActionExecuted { automation_id: String, action_index: usize },
    /// A run failed.
    Failed { automation_id: String, error: String },
    /// An automation was created.
    Created { automation_id: String },
    /// An automation was updated.
    Updated { automation_id: String },
    /// An automation was deleted.
    Deleted { automation_id: String },
}

/// An IEEE address in display form, as device triggers name devices.
pub fn format_ieee(ieee: &[u8; 8]) -> (r: String)
    ensures
        r@ == reversed_hex(ieee@),
{
    format_reversed_hex(ieee)
}

/// Whether a device trigger watching `ieee` (display form) concerns the
/// device with these address bytes.
pub open spec fn same_device_text(ieee: Seq<char>, address: Seq<u8>) -> bool {
    reversed_hex(address) == ieee
}

/// Whether a trigger fires on a network event. Only device triggers fire on
/// network events: joins for Joined or Any, departures for Left or Any,
/// updates for Any, and state changes on the watched endpoint (if one is
/// set) for Any and Toggled, for TurnedOn when on, for TurnedOff when off.
pub open spec fn trigger_fires(t: Trigger, e: NetworkEvent) -> bool {
    match t {
        Trigger::DeviceState { device_ieee, endpoint, state_change } => match e {
            NetworkEvent::DeviceJoined(d) => same_device_text(device_ieee@, d.ieee_address@) && (
            state_change == StateChange::Joined || state_change == StateChange::Any),
            NetworkEvent::DeviceLeft { ieee_address } => same_device_text(
                device_ieee@,
                ieee_address@,
            ) && (state_change == StateChange::Left || state_change == StateChange::Any),
            NetworkEvent::DeviceUpdated { ieee_address } => same_device_text(
                device_ieee@,
                ieee_address@,
            ) && state_change == StateChange::Any,
            NetworkEvent::NetworkStateChanged { .. } => false,
            NetworkEvent::DeviceStateChanged { ieee_address, endpoint: ep, state_on } => same_device_text(
                device_ieee@,
                ieee_address@,
            ) && (endpoint matches Some(want) ==> want == ep) && match state_change {
                StateChange::Any | StateChange::Toggled => true,
                StateChange::TurnedOn => state_on,
                StateChange::TurnedOff => !state_on,
                _ => false,
            },
        },
        _ => false,
    }
}

/// Whether a trigger fires on a network event.
pub fn trigger_matches(trigger: &Trigger, event: &NetworkEvent) -> (r: bool)
    ensures
        r == trigger_fires(*trigger, *event),
{
    match trigger {
        Trigger::DeviceState { device_ieee, endpoint, state_change } => match event {
            NetworkEvent::DeviceJoined(d) => {
                let text = format_reversed_hex(&d.ieee_address);
                (*state_change == StateChange::Joined || *state_change == StateChange::Any) && text
                    == *device_ieee
            },
            NetworkEvent::DeviceLeft { ieee_address } => {
                let text = format_reversed_hex(ieee_address);
                (*state_change == StateChange::Left || *state_change == StateChange::Any) && text
                    == *device_ieee
            },
            NetworkEvent::DeviceUpdated { ieee_address } => {
                let text = format_reversed_hex(ieee_address);
                *state_change == StateChange::Any && text == *device_ieee
            },
            NetworkEvent::NetworkStateChanged { .. } => false,
            NetworkEvent::DeviceStateChanged { ieee_address, endpoint: ep, state_on } => {
                let text = format_reversed_hex(ieee_address);
                if text != *device_ieee {
                    return false;
                }
                match endpoint {
                    Some(want) => {
                        if *want != *ep {
                            return false;
                        }
                    },
                    None => {},
                }
                match state_change {
                    StateChange::Any | StateChange::Toggled => true,
                    StateChange::TurnedOn => *state_on,
                    StateChange::TurnedOff => !*state_on,
                    _ => false,
                }
            },
        },
        _ => false,
    }
}

/// No two automations share an id.
pub open spec fn ids_distinct(s: Seq<Automation>) -> bool {
    forall|i: int, j: int|
        0 <= i < s.len() && 0 <= j < s.len() && i != j ==> #[trigger] s[i].id@ != #[trigger] s[j].id@
}

/// Some automation has this id.
pub open spec fn has_id(s: Seq<Automation>, id: Seq<char>) -> bool {
    exists|i: int| 0 <= i < s.len() && #[trigger] s[i].id@ == id
}

/// The automations, keyed by id.
pub struct AutomationStore {
    automations: Vec<Automation>,
}

impl View for AutomationStore {
    type V = Seq<Automation>;

    closed spec fn view(&self) -> Seq<Automation> {
        self.automations@
    }
}

impl AutomationStore {
    /// Ids are distinct.
    pub closed spec fn wf(&self) -> bool {
        ids_distinct(self.automations@)
    }

    /// An empty store.
    pub fn new() -> (r: AutomationStore)
        ensures
            r.wf(),
            r@.len() == 0,
    {
        AutomationStore { automations: Vec::new() }
    }

    /// All automations.
    pub fn list(&self) -> (r: &Vec<Automation>)
        ensures
            r@ == self@,
    {
        &self.automations
    }

    fn position(&self, id: &String) -> (r: Option<usize>)
        ensures
            match r {
                Some(i) => i < self@.len() && self@[i as int].id@ == id@,
                None => !has_id(self@, id@),
            },
    {
        let mut i: usize = 0;
        while i < self.automations.len()
            invariant
                i <= self.automations@.len(),
                forall|j: int| 0 <= j < i ==> #[trigger] self.automations@[j].id@ != id@,
            decreases self.automations@.len() - i,
        {
            if self.automations[i].id == *id {
                return Some(i);
            }
            i = i + 1;
        }
        None
    }

    /// The automation with this id.
    pub fn get(&self, id: &String) -> (r: Option<&Automation>)
        requires
            self.wf(),
        ensures
            r is Some <==> has_id(self@, id@),
            forall|i: int| 0 <= i < self@.len() && #[trigger] self@[i].id@ == id@ ==> r == Some(&self@[i]),
    {
        match self.position(id) {
            Some(i) => {
                proof {
                    assert forall|j: int| 0 <= j < self@.len() && #[trigger] self@[j].id@ == id@ implies j == i by {
                        if j != i {
                            assert(self.automations@[j].id@ != self.automations@[i as int].id@);
                        }
                    }
                }
                Some(&self.automations[i])
            },
            None => None,
        }
    }

    /// Adds an automation, replacing one with the same id.
    pub fn insert(&mut self, automation: Automation)
        requires
            old(self).wf(),
        ensures
            final(self).wf(),
            !has_id(old(self)@, automation.id@) ==> final(self)@ == old(self)@.push(automation),
            forall|i: int| 0 <= i < old(self)@.len() && #[trigger] old(self)@[i].id@ == automation.id@
                ==> final(self)@ == old(self)@.update(i, automation),
    {
        let ghost before = self.automations@;
        match self.position(&automation.id) {
            Some(i) => {
                proof {
                    assert forall|j: int| 0 <= j < before.len() && #[trigger] before[j].id@ == automation.id@ implies j == i by {
                        if j != i {
                            assert(before[j].id@ != before[i as int].id@);
                        }
                    }
                }
                self.automations.set(i, automation);
                proof {
                    let after = self.automations@;
                    assert forall|a: int, b: int| 0 <= a < after.len() && 0 <= b < after.len() && a != b implies #[trigger] after[a].id@ != #[trigger] after[b].id@ by {
                        assert(before[a].id@ != before[b].id@);
                    }
                }
            },
            None => {
                self.automations.push(automation);
                proof {
                    let after = self.automations@;
                    assert forall|a: int, b: int| 0 <= a < after.len() && 0 <= b < after.len() && a != b implies #[trigger] after[a].id@ != #[trigger] after[b].id@ by {
                        if a < before.len() && b < before.len() {
                            assert(before[a].id@ != before[b].id@);
                        } else if a < before.len() {
                            assert(before[a].id@ != after[b].id@);
                        } else {
                            assert(before[b].id@ != after[a].id@);
                        }
                    }
                }
            },
        }
    }

    /// Applies a partial update at time `now` to the automation with this id.
    pub fn update(&mut self, id: &String, request: UpdateAutomationRequest, now: String) -> (r: Result<(), AutomationError>)
        requires
            old(self).wf(),
        ensures
            final(self).wf(),
            r is Ok <==> has_id(old(self)@, id@),
            r is Err ==> r == Err::<(), AutomationError>(AutomationError::NotFound(*id)) && final(self)@ == old(self)@,
            forall|i: int| 0 <= i < old(self)@.len() && #[trigger] old(self)@[i].id@ == id@ ==> {
                &&& final(self)@.len() == old(self)@.len()
                &&& forall|j: int| 0 <= j < old(self)@.len() && j != i ==> #[trigger] final(self)@[j] == old(self)@[j]
                &&& final(self)@[i].id == old(self)@[i].id
                &&& final(self)@[i].created_at == old(self)@[i].created_at
                &&& final(self)@[i].updated_at == now
                &&& final(self)@[i].enabled == (match request.enabled {
                    Some(e) => e,
                    None => old(self)@[i].enabled,
                })
                &&& final(self)@[i].name == (match request.name {
                    Some(n) => n,
                    None => old(self)@[i].name,
                })
                &&& final(self)@[i].trigger == (match request.trigger {
                    Some(t) => t,
                    None => old(self)@[i].trigger,
                })
                &&& final(self)@[i].description == (match request.description {
                    Some(d) => d,
                    None => old(self)@[i].description,
                })
                &&& final(self)@[i].conditions == (match request.conditions {
                    Some(c) => c,
                    None => old(self)@[i].conditions,
                })
                &&& final(self)@[i].actions == (match request.actions {
                    Some(a) => a,
                    None => old(self)@[i].actions,
                })
            },
    {
        match self.position(id) {
            Some(i) => {
                let ghost before = self.automations@;
                proof {
                    assert forall|j: int| 0 <= j < before.len() && #[trigger] before[j].id@ == id@ implies j == i by {
                        if j != i {
                            assert(before[j].id@ != before[i as int].id@);
                        }
                    }
                }
                let mut a = self.automations.remove(i);
                a.apply_update_at(request, now);
                self.automations.insert(i, a);
                proof {
                    let after = self.automations@;
                    assert(after =~= before.update(i as int, a));
                    assert forall|x: int, y: int| 0 <= x < after.len() && 0 <= y < after.len() && x != y implies #[trigger] after[x].id@ != #[trigger] after[y].id@ by {
                        assert(before[x].id@ != before[y].id@);
                    }
                }
                Ok(())
            },
            None => Err(AutomationError::NotFound(id.clone())),
        }
    }

    /// Removes the automation with this id and returns it.
    pub fn remove(&mut self, id: &String) -> (r: Result<Automation, AutomationError>)
        requires
            old(self).wf(),
        ensures
            final(self).wf(),
            r is Ok <==> has_id(old(self)@, id@),
            !has_id(final(self)@, id@),
            r is Err ==> r == Err::<Automation, AutomationError>(AutomationError::NotFound(*id)) && final(self)@ == old(self)@,
            forall|i: int| 0 <= i < old(self)@.len() && #[trigger] old(self)@[i].id@ == id@ ==> r == Ok::<Automation, AutomationError>(old(self)@[i]) && final(self)@ == old(self)@.remove(i),
    {
        match self.position(id) {
            Some(i) => {
                let ghost before = self.automations@;
                let a = self.automations.remove(i);
                proof {
                    assert forall|j: int| 0 <= j < before.len() && #[trigger] before[j].id@ == id@ implies j == i by {
                        if j != i {
                            assert(before[j].id@ != before[i as int].id@);
                        }
                    }
                    let after = self.automations@;
                    assert forall|x: int, y: int| 0 <= x < after.len() && 0 <= y < after.len() && x != y implies #[trigger] after[x].id@ != #[trigger] after[y].id@ by {
                        let x0 = if x < i { x } else { x + 1 };
                        let y0 = if y < i { y } else { y + 1 };
                        assert(before[x0].id@ != before[y0].id@);
                    }
                    if has_id(after, id@) {
                        let x = choose|x: int| 0 <= x < after.len() && #[trigger] after[x].id@ == id@;
                        let x0 = if x < i { x } else { x + 1 };
                        assert(before[x0].id@ == id@);
                    }
                }
                Ok(a)
            },
            None => Err(AutomationError::NotFound(id.clone())),
        }
    }

    /// The positions of the enabled automations that a network event
    /// triggers, in store order.
    pub fn triggered_by(&self, event: &NetworkEvent) -> (r: Vec<usize>)
        ensures
            forall|k: int| 0 <= k < r@.len() ==> (#[trigger] r@[k] as int) < self@.len()
                && self@[r@[k] as int].enabled && trigger_fires(self@[r@[k] as int].trigger, *event),
            forall|k: int, l: int| 0 <= k < l < r@.len() ==> #[trigger] r@[k] < #[trigger] r@[l],
            forall|i: int| 0 <= i < self@.len() && self@[i].enabled && trigger_fires(#[trigger] self@[i].trigger, *event) ==> r@.contains(i as usize),
    {
        let mut out: Vec<usize> = Vec::new();
        let mut i: usize = 0;
        while i < self.automations.len()
            invariant
                i <= self.automations@.len(),
                forall|k: int| 0 <= k < out@.len() ==> (#[trigger] out@[k] as int) < i
                    && self.automations@[out@[k] as int].enabled && trigger_fires(self.automations@[out@[k] as int].trigger, *event),
                forall|k: int, l: int| 0 <= k < l < out@.len() ==> #[trigger] out@[k] < #[trigger] out@[l],
                forall|j: int| 0 <= j < i && self.automations@[j].enabled && trigger_fires(#[trigger] self.automations@[j].trigger, *event) ==> out@.contains(j as usize),
            decreases self.automations@.len() - i,
        {
            let a = &self.automations[i];
            if a.enabled && trigger_matches(&a.trigger, event) {
                let ghost before = out@;
                out.push(i);
                proof {
                    assert forall|j: int| 0 <= j < i + 1 && self.automations@[j].enabled && trigger_fires(#[trigger] self.automations@[j].trigger, *event) implies out@.contains(j as usize) by {
                        if j < i {
                            let k = choose|k: int| 0 <= k < before.len() && before[k] == j as usize;
                            assert(out@[k] == before[k]);
                        } else {
                            assert(out@[out@.len() - 1] == j as usize);
                        }
                    }
                }
            }
            i = i + 1;
        }
        out
    }

    /// The automation a manual trigger runs: it must exist and be enabled.
    pub fn manual_target(&self, id: &String) -> (r: Result<&Automation, AutomationError>)
        requires
            self.wf(),
        ensures
            !has_id(self@, id@) ==> r == Err::<&Automation, AutomationError>(AutomationError::NotFound(*id)),
            forall|i: int| 0 <= i < self@.len() && #[trigger] self@[i].id@ == id@ ==> if self@[i].enabled {
                r == Ok::<&Automation, AutomationError>(&self@[i])
            } else {
                r == Err::<&Automation, AutomationError>(AutomationError::Disabled(*id))
            },
    {
        match self.get(id) {
            Some(a) => {
                if a.enabled {
                    Ok(a)
                } else {
                    Err(AutomationError::Disabled(id.clone()))
                }
            },
            None => Err(AutomationError::NotFound(id.clone())),
        }
    }
}

} // verus!
