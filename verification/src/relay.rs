//! The output relays of the driver board.
//!
//! Each driver output channel has two relays: one that shorts the output to
//! ground and one that connects the current source to the output. Engaging
//! or disengaging a relay takes time, so enabling and disabling an output
//! is a stepped sequence: the state machine fires one relay movement, waits
//! for the relay-done signal, fires the next, and only then rests in the
//! enabled or disabled state. The relays themselves sit behind an I2C
//! io-expander; the state machine drives them through a context interface
//! and is itself pure.
use vstd::prelude::*;

verus! {

/// Errors of the relay driver.
#[derive(Debug, Copy, Clone, PartialEq, Eq, Structural)]
pub enum RelayError {
    /// The I2C expander IC is in use.
    Mcp23008InUse,
}

/// One pin of the MCP23008 io-expander that drives the relays.
#[derive(Debug, Copy, Clone, PartialEq, Eq, Structural)]
pub enum ExpanderPin {
    Gp0,
    Gp1,
    Gp2,
    Gp3,
    Gp4,
    Gp5,
    Gp6,
    Gp7,
}

/// The io-expander pins of the low-noise output's relays.
#[allow(non_camel_case_types)]
#[derive(Debug, Copy, Clone, PartialEq, Eq, Structural)]
pub enum LnRelayPin {
    K1_EN_N,
    K1_EN,
    K0_D,
    K0_CP,
}

impl From<LnRelayPin> for ExpanderPin {
    /// The low-noise relay pins sit on the expander's lower nibble.
    fn from(pin: LnRelayPin) -> (r: Self) {
        match pin {
            LnRelayPin::K1_EN_N => Self::Gp0,
            LnRelayPin::K1_EN => Self::Gp1,
            LnRelayPin::K0_D => Self::Gp2,
            LnRelayPin::K0_CP => Self::Gp3,
        }
    }
}

impl vstd::std_specs::convert::FromSpecImpl<LnRelayPin> for ExpanderPin {
    open spec fn obeys_from_spec() -> bool {
        true
    }

    open spec fn from_spec(pin: LnRelayPin) -> Self {
        match pin {
            LnRelayPin::K1_EN_N => Self::Gp0,
            LnRelayPin::K1_EN => Self::Gp1,
            LnRelayPin::K0_D => Self::Gp2,
            LnRelayPin::K0_CP => Self::Gp3,
        }
    }
}

/// The io-expander pins of the high-power output's relays.
#[allow(non_camel_case_types)]
#[derive(Debug, Copy, Clone, PartialEq, Eq, Structural)]
pub enum HpRelayPin {
    K1_EN_N,
    K1_EN,
    K0_D,
    K0_CP,
}

impl From<HpRelayPin> for ExpanderPin {
    /// The high-power relay pins sit on the expander's upper nibble.
    fn from(pin: HpRelayPin) -> (r: Self) {
        match pin {
            HpRelayPin::K1_EN_N => Self::Gp4,
            HpRelayPin::K1_EN => Self::Gp5,
            HpRelayPin::K0_D => Self::Gp6,
            HpRelayPin::K0_CP => Self::Gp7,
        }
    }
}

impl vstd::std_specs::convert::FromSpecImpl<HpRelayPin> for ExpanderPin {
    open spec fn obeys_from_spec() -> bool {
        true
    }

    open spec fn from_spec(pin: HpRelayPin) -> Self {
        match pin {
            HpRelayPin::K1_EN_N => Self::Gp4,
            HpRelayPin::K1_EN => Self::Gp5,
            HpRelayPin::K0_D => Self::Gp6,
            HpRelayPin::K0_CP => Self::Gp7,
        }
    }
}

/// The states of the relay sequencing machine. Enabling engages relay K0,
/// waits for it, engages K1 and waits again; disabling runs the reverse
/// order. The machine rests in Disabled or Enabled between sequences.
#[derive(Debug, Copy, Clone, PartialEq, Eq, Structural)]
pub enum States {
    Disabled,
    EnableWaitK0,
    EnableWaitK1,
    Enabled,
    DisableWaitK1,
    DisableWaitK0,
}

/// The events the relay sequencing machine reacts to.
#[derive(Debug, Copy, Clone, PartialEq, Eq, Structural)]
pub enum Events {
    Enable,
    RelayDone,
    Disable,
}

/// Refusal of an event that the current state does not accept.
#[derive(Debug, Copy, Clone, PartialEq, Eq, Structural)]
pub enum Error {
    InvalidEvent,
}

/// What a relay driver does when the machine fires a transition action:
/// each method moves one relay contact of the channel. The driver board's
/// relay driver implements this against the I2C io-expander.
pub trait StateMachineContext {
    /// Connect K0 to its upper contact.
    fn engage_k0(&mut self);

    /// Connect K0 to its lower contact.
    fn disengage_k0(&mut self);

    /// Connect K1 to its upper contact.
    fn engage_k1(&mut self);

    /// Connect K1 to its lower contact.
    fn disengage_k1(&mut self);
}

/// The transition table of the relay sequencing machine: the next state for
/// a pair the machine accepts, nothing for a pair it refuses.
pub open spec fn transition(state: States, event: Events) -> Option<States> {
    match (state, event) {
        (States::Disabled, Events::Enable) => Some(States::EnableWaitK0),
        (States::EnableWaitK0, Events::RelayDone) => Some(States::EnableWaitK1),
        (States::EnableWaitK1, Events::RelayDone) => Some(States::Enabled),
        (States::Enabled, Events::Disable) => Some(States::DisableWaitK1),
        (States::DisableWaitK1, Events::RelayDone) => Some(States::DisableWaitK0),
        (States::DisableWaitK0, Events::RelayDone) => Some(States::Disabled),
        _ => None,
    }
}

/// The relay sequencing machine, driving a context that moves the relay
/// contacts.
pub struct StateMachine<C: StateMachineContext> {
    state: States,
    context: C,
}

impl<C: StateMachineContext> StateMachine<C> {
    /// The machine's current state.
    pub closed spec fn spec_state(self) -> States {
        self.state
    }

    /// The relay driver the machine fires its actions on.
    pub closed spec fn spec_context(self) -> C {
        self.context
    }

    /// A machine resting in the Disabled state, driving `context`.
    pub fn new(context: C) -> (sm: Self)
        ensures
            sm.spec_state() == States::Disabled,
            sm.spec_context() == context,
    {
        StateMachine { state: States::Disabled, context }
    }

    /// Reads the machine's current state.
    pub fn state(&self) -> (s: States)
        ensures
            s == self.spec_state(),
    {
        self.state
    }

    /// Borrows the driven context.
    pub fn context(&self) -> (c: &C)
        ensures
            *c == self.spec_context(),
    {
        &self.context
    }

    /// Processes one event: fires the accepted transition's action on the
    /// context and moves to the next state, or refuses the event with
    /// `InvalidEvent`, changing nothing.
    pub fn process_event(&mut self, event: Events) -> (r: Result<States, Error>)
        ensures
            match transition(old(self).spec_state(), event) {
                Some(next) => r == Ok::<States, Error>(next) && final(self).spec_state() == next,
                None => r == Err::<States, Error>(Error::InvalidEvent) && *final(self) == *old(
                    self,
                ),
            },
    {
        match (self.state, event) {
            (States::Disabled, Events::Enable) => {
                self.context.engage_k0();
                self.state = States::EnableWaitK0;
                Ok(States::EnableWaitK0)
            },
            (States::EnableWaitK0, Events::RelayDone) => {
                self.context.engage_k1();
                self.state = States::EnableWaitK1;
                Ok(States::EnableWaitK1)
            },
            (States::EnableWaitK1, Events::RelayDone) => {
                self.state = States::Enabled;
                Ok(States::Enabled)
            },
            (States::Enabled, Events::Disable) => {
                self.context.disengage_k1();
                self.state = States::DisableWaitK1;
                Ok(States::DisableWaitK1)
            },
            (States::DisableWaitK1, Events::RelayDone) => {
                self.context.disengage_k0();
                self.state = States::DisableWaitK0;
                Ok(States::DisableWaitK0)
            },
            (States::DisableWaitK0, Events::RelayDone) => {
                self.state = States::Disabled;
                Ok(States::Disabled)
            },
            _ => Err(Error::InvalidEvent),
        }
    }

    /// Begins the enable sequence: engages K0 and waits for it. Accepted
    /// only while the machine rests in the Disabled state.
    pub fn enable(&mut self)
        requires
            old(self).spec_state() == States::Disabled,
        ensures
            final(self).spec_state() == States::EnableWaitK0,
    {
        let _ = self.process_event(Events::Enable);
    }

    /// Begins the disable sequence: disengages K1 and waits for it.
    /// Accepted only while the machine rests in the Enabled state.
    pub fn disable(&mut self)
        requires
            old(self).spec_state() == States::Enabled,
        ensures
            final(self).spec_state() == States::DisableWaitK1,
    {
        let _ = self.process_event(Events::Disable);
    }

    /// Advances the sequence when the hardware reports that the pending
    /// relay movement finished. Accepted only while a movement is pending.
    pub fn handle_relay_done(&mut self)
        requires
            transition(old(self).spec_state(), Events::RelayDone) is Some,
        ensures
            transition(old(self).spec_state(), Events::RelayDone) == Some(
                final(self).spec_state(),
            ),
    {
        let _ = self.process_event(Events::RelayDone);
    }
}

} // verus!
