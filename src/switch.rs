use vstd::prelude::*;

use crate::entity::{DeviceClass, Entity};

verus! {

/// Commands a switch can execute
#[derive(Clone, Copy, PartialEq, Eq, Structural)]
pub enum SwitchRequest {
    /// Turns the switch on
    TurnON,
    /// Turns the switch off
    TurnOFF,
    /// Toggles the switch state
    Toggle,
    /// Returns the current switch state
    Get,
}

/// A switch entity that the command dispatcher can operate
pub trait SwitchRef<'a>: Entity<'a> + Sized {
    /// The switch can execute any request.
    spec fn ready(&self) -> bool;

    /// Executing `req` on this switch may return `r` and leave the switch as
    /// `after`.
    spec fn outcome(&self, req: SwitchRequest, r: bool, after: Self) -> bool;

    /// Execute a SwitchRequest on the switch; returns the resulting state
    fn exec_request(&mut self, req: SwitchRequest) -> (r: bool)
        requires
            old(self).ready(),
        ensures
            old(self).outcome(req, r, *final(self)),
            final(self).ready(),
            final(self).unique_id() == old(self).unique_id(),
            final(self).name() == old(self).name(),
    ;
}

/// A switch whose requests are handled by a callback
pub struct Switch<'a, F: FnMut(SwitchRequest) -> bool> {
    /// The friendly name for the entity
    pub name: &'a str,
    /// The `unique_id` for this entity
    pub unique_id: &'a str,
    /// Update the state of the switch
    pub callback: F,
}

impl<'a, F: FnMut(SwitchRequest) -> bool> Switch<'a, F> {
    /// Create a new switch
    pub fn new(name: &'a str, unique_id: &'a str, callback: F) -> (r: Self)
        ensures
            r.name == name,
            r.unique_id == unique_id,
            r.callback == callback,
    {
        Switch { name, unique_id, callback }
    }
}

impl<'a, F: FnMut(SwitchRequest) -> bool> Entity<'a> for Switch<'a, F> {
    open spec fn unique_id(&self) -> Seq<char> {
        self.unique_id@
    }

    open spec fn name(&self) -> Seq<char> {
        self.name@
    }

    open spec fn device_class(&self) -> DeviceClass {
        DeviceClass::Switch
    }

    fn get_unique_id(&self) -> (r: &'a str) {
        self.unique_id
    }

    fn get_name(&self) -> (r: &'a str) {
        self.name
    }

    fn get_device_class(&self) -> (r: DeviceClass) {
        DeviceClass::Switch
    }
}

impl<'a, F: FnMut(SwitchRequest) -> bool> SwitchRef<'a> for Switch<'a, F> {
    open spec fn ready(&self) -> bool {
        forall|req: SwitchRequest| #[trigger] call_requires(self.callback, (req,))
    }

    /// The result is what the callback returns, and the switch keeps its
    /// name, unique id and callback.
    open spec fn outcome(&self, req: SwitchRequest, r: bool, after: Self) -> bool {
        &&& call_ensures(self.callback, (req,), r)
        &&& after == *self
    }

    fn exec_request(&mut self, req: SwitchRequest) -> (r: bool) {
        (self.callback)(req)
    }
}

/// A callback switch whose callback accepts every request can execute
/// requests.
pub proof fn lemma_callback_switch_ready<'a, F: FnMut(SwitchRequest) -> bool>(s: &Switch<'a, F>)
    requires
        forall|req: SwitchRequest| call_requires(s.callback, (req,)),
    ensures
        s.ready(),
{
    assert forall|req: SwitchRequest| #[trigger] call_requires(s.callback, (req,)) by {}
}

/// What executing a request on a callback switch means: the result is one that
/// the callback may return for the request, and the switch is left as it was.
pub proof fn lemma_callback_switch_outcome<'a, F: FnMut(SwitchRequest) -> bool>(
    s: Switch<'a, F>,
    req: SwitchRequest,
    r: bool,
    after: Switch<'a, F>,
)
    requires
        s.outcome(req, r, after),
    ensures
        call_ensures(s.callback, (req,), r),
        after == s,
{
}

/// An operation on the output pin that drives a pin switch
#[derive(Clone, Copy, PartialEq, Eq, Structural)]
pub enum PinAction {
    /// Drive the pin high
    SetHigh,
    /// Drive the pin low
    SetLow,
    /// Invert the pin's level
    Toggle,
    /// Read back the level the pin is driven to
    Read,
}

/// The pin operation that carries out `req`; `negate` inverts the polarity.
pub open spec fn spec_pin_action(req: SwitchRequest, negate: bool) -> PinAction {
    match req {
        SwitchRequest::TurnON => if negate {
            PinAction::SetLow
        } else {
            PinAction::SetHigh
        },
        SwitchRequest::TurnOFF => if negate {
            PinAction::SetHigh
        } else {
            PinAction::SetLow
        },
        SwitchRequest::Toggle => PinAction::Toggle,
        SwitchRequest::Get => PinAction::Read,
    }
}

/// The level of a pin after `action`, from level `high`.
pub open spec fn level_after(action: PinAction, high: bool) -> bool {
    match action {
        PinAction::SetHigh => true,
        PinAction::SetLow => false,
        PinAction::Toggle => !high,
        PinAction::Read => high,
    }
}

/// Returns the pin operation that carries out a request on a pin switch
pub fn pin_action(req: SwitchRequest, negate: bool) -> (r: PinAction)
    ensures
        r == spec_pin_action(req, negate),
{
    match req {
        SwitchRequest::TurnON => if negate {
            PinAction::SetLow
        } else {
            PinAction::SetHigh
        },
        SwitchRequest::TurnOFF => if negate {
            PinAction::SetHigh
        } else {
            PinAction::SetLow
        },
        SwitchRequest::Toggle => PinAction::Toggle,
        SwitchRequest::Get => PinAction::Read,
    }
}

/// Returns the switch state that a pin driven high (or low) stands for
pub fn pin_state(high: bool, negate: bool) -> (r: bool)
    ensures
        r == (high != negate),
{
    high != negate
}

/// The polarity is applied alike to writes and reads: whatever the pin's
/// level and polarity, a pin switch reads on after `TurnON`, off after
/// `TurnOFF`, the opposite state after `Toggle`, and the same after `Get`.
pub proof fn lemma_pin_polarity(negate: bool, high: bool)
    ensures
        (level_after(spec_pin_action(SwitchRequest::TurnON, negate), high) != negate) == true,
        (level_after(spec_pin_action(SwitchRequest::TurnOFF, negate), high) != negate) == false,
        (level_after(spec_pin_action(SwitchRequest::Toggle, negate), high) != negate) == !(high
            != negate),
        (level_after(spec_pin_action(SwitchRequest::Get, negate), high) != negate) == (high
            != negate),
{
}

} // verus!
