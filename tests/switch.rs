use vennix_hal::mock::Pin;
use vennix_hal::{IntoSwitch, InputPin, Normal, OutputPin, Reverse, State, StatefulOutputPin, Switch};

#[test]
fn normal_enable_drives_high() {
    let mut s: Switch<Pin, Normal> = Switch::new(Pin::new());
    s.enable();
    assert_eq!(s.is_enabled(), true);
    assert_eq!(s.into_inner().is_high(), Ok(true));
}

#[test]
fn reverse_enable_drives_low() {
    let mut s: Switch<Pin, Reverse> = Switch::new(Pin::with_state(State::Enabled));
    s.enable();
    assert!(s.is_enabled());
    assert!(!s.is_disabled());
    assert_eq!(s.into_inner().is_low(), Ok(true));
}

#[test]
fn set_state_and_read_back() {
    let mut s: Switch<Pin, Normal> = Switch::new(Pin::new());
    s.set_state(State::Enabled);
    assert_eq!(s.read_state(), State::Enabled);
    s.set_state(State::Disabled);
    assert_eq!(s.read_state(), State::Disabled);
    assert!(s.try_set_state(State::Enabled).is_ok());
    assert_eq!(s.try_read_state(), Ok(State::Enabled));
    assert_eq!(s.try_check_is_enabled(), Ok(true));
    assert_eq!(s.try_check_is_disabled(), Ok(false));
    assert!(s.try_disable().is_ok());
    assert_eq!(s.try_check_is_disabled(), Ok(true));
    assert!(s.try_enable().is_ok());
    s.disable();
    assert!(s.is_disabled());
}

#[test]
fn direction_conversions_keep_the_pin() {
    let s: Switch<Pin, Normal> = Pin::with_state(State::Enabled).into_switch();
    assert!(s.is_enabled());
    let r = s.into_revers();
    assert!(r.is_disabled());
    let n = r.into_normal();
    assert!(n.is_enabled());
    let r = n.reverberate();
    assert!(r.is_none());
    let n: Switch<Pin, Normal> = Switch::new(Pin::new());
    assert!(n.normalize().is_some());
    let r: Switch<Pin, Reverse> = Switch::new(Pin::new());
    let r = r.reverberate().unwrap();
    assert!(r.normalize().is_none());
}

#[test]
fn state_from_flag_and_default() {
    assert_eq!(State::from(true), State::Enabled);
    assert_eq!(State::from(false), State::Disabled);
    assert_eq!(State::default(), State::Disabled);
}

#[test]
fn mock_pin_output() {
    let mut p = Pin::default();
    assert_eq!(p.is_set_low(), Ok(true));
    assert!(p.set_high().is_ok());
    assert_eq!(p.is_set_high(), Ok(true));
    assert!(p.set_low().is_ok());
    assert_eq!(p.is_low(), Ok(true));
}

#[test]
fn polarity_mapping() {
    assert!(Switch::<Pin, Normal>::level_for_state(State::Enabled));
    assert!(!Switch::<Pin, Normal>::level_for_state(State::Disabled));
    assert!(!Switch::<Pin, Reverse>::level_for_state(State::Enabled));
    assert!(Switch::<Pin, Reverse>::level_for_state(State::Disabled));
    assert_eq!(Switch::<Pin, Normal>::state_for_level(true), State::Enabled);
    assert_eq!(Switch::<Pin, Normal>::state_for_level(false), State::Disabled);
    assert_eq!(Switch::<Pin, Reverse>::state_for_level(true), State::Disabled);
    assert_eq!(Switch::<Pin, Reverse>::state_for_level(false), State::Enabled);
}

#[test]
fn read_back_after_set_state_both_directions() {
    for st in [State::Enabled, State::Disabled] {
        let mut n: Switch<Pin, Normal> = Switch::new(Pin::new());
        n.set_state(st);
        assert_eq!(n.read_state(), st);
        let mut r: Switch<Pin, Reverse> = Switch::new(Pin::new());
        r.set_state(st);
        assert_eq!(r.read_state(), st);
    }
}

#[test]
fn new_pins_read_by_direction() {
    assert!(Switch::<Pin, Reverse>::new(Pin::new()).is_enabled());
    assert!(!Switch::<Pin, Normal>::new(Pin::new()).is_enabled());
    let p = Pin::with_state(State::Enabled);
    assert_eq!(p.is_high(), Ok(true));
    assert_eq!(p.is_low(), Ok(false));
    let mut s: Switch<Pin, Reverse> = Switch::new(Pin::new());
    s.enable();
    assert_eq!(s.into_inner().is_low(), Ok(true));
}

#[test]
fn reversal_reads_the_opposite() {
    let n: Switch<Pin, Normal> = Switch::new(Pin::with_state(State::Enabled));
    let before = n.try_check_is_disabled();
    let r = n.into_revers();
    assert_eq!(r.try_check_is_enabled(), before);
}

#[test]
fn clone_keeps_the_pin_state() {
    #[derive(Clone)]
    struct Level(bool);
    let s: Switch<Level, Normal> = Switch::new(Level(true));
    let c = s.clone();
    assert!(c.into_inner().0);
}
