use stabilizer_net::driver::Channel;
use stabilizer_net::relay::{
    Error, Events, ExpanderPin, HpRelayPin, LnRelayPin, StateMachine, StateMachineContext, States,
};

#[derive(Default)]
struct RecordingRelay {
    log: Vec<&'static str>,
}

impl StateMachineContext for RecordingRelay {
    fn engage_k0(&mut self) {
        self.log.push("engage_k0");
    }

    fn disengage_k0(&mut self) {
        self.log.push("disengage_k0");
    }

    fn engage_k1(&mut self) {
        self.log.push("engage_k1");
    }

    fn disengage_k1(&mut self) {
        self.log.push("disengage_k1");
    }
}

#[test]
fn machine_starts_disabled() {
    let sm = StateMachine::new(RecordingRelay::default());
    assert_eq!(sm.state(), States::Disabled);
}

#[test]
fn enable_sequence_steps_through_both_relays() {
    let mut sm = StateMachine::new(RecordingRelay::default());
    sm.enable();
    assert_eq!(sm.state(), States::EnableWaitK0);
    sm.handle_relay_done();
    assert_eq!(sm.state(), States::EnableWaitK1);
    sm.handle_relay_done();
    assert_eq!(sm.state(), States::Enabled);
    assert_eq!(sm.context().log, ["engage_k0", "engage_k1"]);
}

#[test]
fn disable_sequence_reverses_the_order() {
    let mut sm = StateMachine::new(RecordingRelay::default());
    sm.enable();
    sm.handle_relay_done();
    sm.handle_relay_done();
    sm.disable();
    assert_eq!(sm.state(), States::DisableWaitK1);
    sm.handle_relay_done();
    assert_eq!(sm.state(), States::DisableWaitK0);
    sm.handle_relay_done();
    assert_eq!(sm.state(), States::Disabled);
    assert_eq!(
        sm.context().log,
        ["engage_k0", "engage_k1", "disengage_k1", "disengage_k0"]
    );
}

#[test]
fn invalid_event_is_refused_and_changes_nothing() {
    let mut sm = StateMachine::new(RecordingRelay::default());
    let r = sm.process_event(Events::RelayDone);
    assert_eq!(r, Err(Error::InvalidEvent));
    assert_eq!(sm.state(), States::Disabled);
    assert!(sm.context().log.is_empty());

    let r = sm.process_event(Events::Disable);
    assert_eq!(r, Err(Error::InvalidEvent));
    assert_eq!(sm.state(), States::Disabled);
}

#[test]
fn process_event_reports_the_next_state() {
    let mut sm = StateMachine::new(RecordingRelay::default());
    assert_eq!(sm.process_event(Events::Enable), Ok(States::EnableWaitK0));
    assert_eq!(sm.process_event(Events::RelayDone), Ok(States::EnableWaitK1));
    assert_eq!(sm.process_event(Events::RelayDone), Ok(States::Enabled));
}

#[test]
fn low_noise_pins_map_to_lower_nibble() {
    assert_eq!(ExpanderPin::from(LnRelayPin::K1_EN_N), ExpanderPin::Gp0);
    assert_eq!(ExpanderPin::from(LnRelayPin::K1_EN), ExpanderPin::Gp1);
    assert_eq!(ExpanderPin::from(LnRelayPin::K0_D), ExpanderPin::Gp2);
    assert_eq!(ExpanderPin::from(LnRelayPin::K0_CP), ExpanderPin::Gp3);
}

#[test]
fn high_power_pins_map_to_upper_nibble() {
    assert_eq!(ExpanderPin::from(HpRelayPin::K1_EN_N), ExpanderPin::Gp4);
    assert_eq!(ExpanderPin::from(HpRelayPin::K1_EN), ExpanderPin::Gp5);
    assert_eq!(ExpanderPin::from(HpRelayPin::K0_D), ExpanderPin::Gp6);
    assert_eq!(ExpanderPin::from(HpRelayPin::K0_CP), ExpanderPin::Gp7);
}

#[test]
fn channels_are_distinct() {
    assert_ne!(Channel::LowNoise, Channel::HighPower);
}
