use vennix_hal::mock::Pin;
use vennix_hal::{Button, Normal, Reverse, State, TickWithResource, TryTickWithResource, Uptime};

use core::time::Duration;

fn button() -> Button<Pin, Normal> {
    Button::new(Pin::new())
}

/// Steps `b` once per millisecond over `from..=to` at `level`.
fn hold_level(b: &mut Button<Pin, Normal>, from: u128, to: u128, level: bool) {
    let mut t = from;
    while t <= to {
        b.tick_with_state(t, level);
        t += 1;
    }
}

/// One tap: asserted over `start..start + 100`, then released for a step.
fn tap(b: &mut Button<Pin, Normal>, start: u128) {
    hold_level(b, start, start + 99, true);
    b.tick_with_state(start + 100, false);
}

#[test]
fn short_assertion_is_rejected() {
    let mut b = button();
    hold_level(&mut b, 0, 59, true);
    b.tick_with_state(60, false);
    assert!(!b.is_press());
    assert!(!b.is_release());
    assert!(!b.is_click());
}

#[test]
fn press_confirmed_exactly_at_debounce() {
    let mut b = button();
    for t in 0..60u128 {
        b.tick_with_state(t, true);
        assert!(!b.is_press(), "press raised early at {}", t);
    }
    b.tick_with_state(60, true);
    assert!(b.is_press());
}

#[test]
fn low_sample_restarts_debounce() {
    let mut b = button();
    hold_level(&mut b, 0, 50, true);
    b.tick_with_state(51, false);
    hold_level(&mut b, 52, 111, true);
    assert!(!b.is_press());
    b.tick_with_state(112, true);
    assert!(b.is_press());
}

#[test]
fn three_taps_make_a_triple_click() {
    let mut b = button();
    tap(&mut b, 0);
    tap(&mut b, 200);
    tap(&mut b, 400);
    // The last release at t = 500 opens the grouping window.
    hold_level(&mut b, 501, 999, false);
    assert!(!b.has_clicks());
    b.tick_with_state(1000, false);
    assert!(!b.is_single());
    assert!(!b.is_double());
    assert!(b.is_triple());
    assert!(b.has_clicks());
    assert_eq!(b.get_clicks(), 3);
    b.tick_with_state(1001, false);
    assert!(!b.has_clicks());
    assert_eq!(b.get_clicks(), 0);
}

#[test]
fn group_not_finalized_before_timeout() {
    let mut b = button();
    tap(&mut b, 0);
    hold_level(&mut b, 101, 599, false);
    assert!(!b.has_clicks());
    b.tick_with_state(600, false);
    assert!(b.is_single());
}

#[test]
fn hold_preempts_tap() {
    let mut b = button();
    hold_level(&mut b, 0, 59, true);
    b.tick_with_state(60, true);
    assert!(b.is_press());
    // The hold timeout runs from the rising edge at t = 0.
    hold_level(&mut b, 61, 499, true);
    assert!(!b.is_holded());
    b.tick_with_state(500, true);
    assert!(b.is_holded());
    assert!(b.is_hold());
    hold_level(&mut b, 561, 2000, true);
    assert!(!b.is_holded());
    assert!(b.is_hold());
    b.tick_with_state(2001, false);
    assert!(b.is_release());
    assert!(!b.is_click());
    assert!(!b.is_hold());
    hold_level(&mut b, 2002, 4000, false);
    assert!(!b.has_clicks());
    assert_eq!(b.get_clicks(), 0);
}

#[test]
fn hold_remembers_prior_taps() {
    let mut b = button();
    tap(&mut b, 0);
    tap(&mut b, 200);
    hold_level(&mut b, 400, 1200, true);
    assert!(b.is_holded());
    assert_eq!(b.get_hold_clicks(), 2);
    assert_eq!(b.get_hold_clicks(), 2);
}

#[test]
fn press_event_is_read_once() {
    let mut b = button();
    hold_level(&mut b, 0, 60, true);
    assert!(b.is_press());
    assert!(!b.is_press());
}

#[test]
fn single_tap_scenario() {
    let mut b = button();
    b.set_debounce(60);
    b.set_timeout(500);
    b.set_click_timeout(500);
    for t in 0..=80u128 {
        b.tick_with_state(t, true);
        if t == 60 {
            assert!(b.is_press());
        } else {
            assert!(!b.is_press());
        }
    }
    b.tick_with_state(81, false);
    assert!(b.is_release());
    assert!(b.is_click());
    hold_level(&mut b, 82, 580, false);
    assert!(!b.has_clicks());
    b.tick_with_state(581, false);
    assert_eq!(b.get_clicks(), 1);
}

#[test]
fn reset_clears_events() {
    let mut b = button();
    tap(&mut b, 0);
    hold_level(&mut b, 101, 700, false);
    b.reset_states();
    assert!(!b.is_press());
    assert!(!b.is_release());
    assert!(!b.is_click());
    assert!(!b.has_clicks());
    assert_eq!(b.get_clicks(), 0);
    assert_eq!(b.get_hold_clicks(), 0);
}

#[test]
fn state_reports_last_sample() {
    let mut b = button();
    assert!(!b.state());
    b.tick_with_state(0, true);
    assert!(b.state());
    b.set_tick_mode(true);
    b.set_step_timeout(100);
    b.tick_with_state(1, false);
    assert!(!b.state());
}

#[test]
fn zero_debounce_confirms_on_second_sample() {
    let mut b = button();
    b.set_debounce(0);
    b.tick_with_state(5, true);
    assert!(!b.is_press());
    b.tick_with_state(5, true);
    assert!(b.is_press());
}

#[test]
fn clock_going_backwards_counts_no_time() {
    let mut b = button();
    b.tick_with_state(1000, true);
    b.tick_with_state(10, true);
    assert!(!b.is_press());
}

#[test]
fn tick_reads_pin_through_switch() {
    // A low pin reads "disabled" under the normal direction: asserted.
    let mut b: Button<Pin, Normal> = Button::new(Pin::new());
    b.tick(0);
    assert!(b.state());
    b.tick(60);
    assert!(b.is_press());

    let mut r: Button<Pin, Reverse> = Button::new(Pin::new());
    r.tick(0);
    assert!(!r.state());

    let mut h: Button<Pin, Reverse> = Button::new(Pin::with_state(State::Enabled));
    assert!(h.try_tick(0).is_ok());
    assert!(h.state());
}

struct FixedClock(u64);

impl Uptime for FixedClock {
    fn get(&self) -> Duration {
        Duration::from_millis(self.0)
    }
}

#[test]
fn tick_with_clock() {
    let mut b: Button<Pin, Normal> = Button::new(Pin::new());
    b.tick_with_resource(&FixedClock(1000));
    assert!(b.try_tick_with_resource(&FixedClock(1059)).is_ok());
    assert!(!b.is_press());
    b.tick_with_resource(&FixedClock(1060));
    assert!(b.is_press());
}

#[test]
fn every_event_is_read_once() {
    let mut b = button();
    hold_level(&mut b, 0, 600, true);
    assert!(b.is_holded());
    assert!(!b.is_holded());
    b.tick_with_state(601, false);
    assert!(b.is_release());
    assert!(!b.is_release());
    tap(&mut b, 700);
    assert!(b.is_click());
    assert!(!b.is_click());
}

struct FaultyPin;

impl vennix_hal::InputPin for FaultyPin {
    type Error = u8;

    fn is_high(&self) -> Result<bool, u8> {
        Err(7)
    }

    fn is_low(&self) -> Result<bool, u8> {
        Err(7)
    }
}

#[test]
fn failed_read_changes_nothing() {
    let mut b: Button<FaultyPin, Normal> = Button::new(FaultyPin);
    assert_eq!(b.try_tick(100), Err(7));
    assert!(!b.state());
    assert!(!b.is_press());
    assert_eq!(b.get_clicks(), 0);
}

#[test]
fn reset_drops_pending_taps() {
    let mut b = button();
    tap(&mut b, 0);
    b.reset_states();
    hold_level(&mut b, 101, 1000, false);
    assert!(!b.has_clicks());
    assert_eq!(b.get_clicks(), 0);
}
