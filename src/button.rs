use vstd::prelude::*;

use core::convert::Infallible;

use crate::digital::InputPin;
use crate::direction::Direction;
use crate::switch::{infallible, IntoSwitch, Switch};
use crate::tick::{TickWithResource, TryTickWithResource};
use crate::time::Uptime;

verus! {

/// Default time a level must stay asserted before a press is accepted.
pub const DEFAULT_DEBOUNCE_MS: u16 = 60;

/// Default time a press must last before it becomes a hold.
pub const DEFAULT_HOLD_TIMEOUT_MS: u16 = 500;

/// Default quiet time after a release that closes a group of clicks.
pub const DEFAULT_CLICK_TIMEOUT_MS: u16 = 500;

/// Default cadence reserved for repeated events while held.
pub const DEFAULT_STEP_TIMEOUT_MS: u16 = 400;

/// The abstract state of a [Button]: every timer, counter and flag that the
/// detector keeps, under its meaning.
pub struct ButtonView {
    /// A rising edge is being debounced.
    pub debouncing: bool,
    /// The current press has turned into a hold.
    pub hold: bool,
    /// A finalized click group is waiting to be read.
    pub group_ready: bool,
    /// Sticky: a hold has started.
    pub hold_started: bool,
    /// Sticky: a confirmed press was released.
    pub released: bool,
    /// Sticky: a press was confirmed.
    pub pressed: bool,
    /// Level: a hold is active.
    pub holding_now: bool,
    /// The confirmed press may still end as a single click.
    pub tap_in_flight: bool,
    /// Sticky: a tap was released without becoming a hold.
    pub single_click: bool,
    /// The auto-tick configuration switch.
    pub tick_mode: bool,
    /// A consumer asked for the finalized click group to be cleared.
    pub ack_requested: bool,
    /// Taps accumulated in the current grouping window.
    pub pending: u8,
    /// Size of the last finalized click group.
    pub finalized: u32,
    /// Taps that were pending when the current or last hold began.
    pub hold_clicks: u32,
    /// Timestamp of the last state-relevant event.
    pub edge_time: u128,
    /// The last sampled level (`true` = asserted).
    pub level: bool,
    /// The press has passed debounce and is held down.
    pub confirmed: bool,
    pub debounce: u16,
    pub timeout: u16,
    pub click_timeout: u16,
    pub step_timeout: u16,
}

/// Time from `since` to `now`, or zero when the clock went backwards.
pub open spec fn elapsed(now: u128, since: u128) -> int {
    if now >= since {
        now - since
    } else {
        0
    }
}

/// A tap count one higher, stopping at the largest value it can hold.
pub open spec fn bump(n: u8) -> u8 {
    if n < u8::MAX {
        (n + 1) as u8
    } else {
        n
    }
}

/// A freshly constructed detector.
pub open spec fn fresh() -> ButtonView {
    ButtonView {
        debouncing: false,
        hold: false,
        group_ready: false,
        hold_started: false,
        released: false,
        pressed: false,
        holding_now: false,
        tap_in_flight: false,
        single_click: false,
        tick_mode: false,
        ack_requested: false,
        pending: 0,
        finalized: 0,
        hold_clicks: 0,
        edge_time: 0,
        level: false,
        confirmed: false,
        debounce: DEFAULT_DEBOUNCE_MS,
        timeout: DEFAULT_HOLD_TIMEOUT_MS,
        click_timeout: DEFAULT_CLICK_TIMEOUT_MS,
        step_timeout: DEFAULT_STEP_TIMEOUT_MS,
    }
}

/// Debounce gate: a press is confirmed once the level has stayed asserted
/// for `debounce` since the rising edge; any low sample restarts it.
pub open spec fn debounce_stage(m: ButtonView, now: u128) -> ButtonView {
    if m.level && !m.confirmed {
        if !m.debouncing {
            ButtonView { debouncing: true, edge_time: now, ..m }
        } else if elapsed(now, m.edge_time) >= m.debounce {
            ButtonView { confirmed: true, pressed: true, tap_in_flight: true, ..m }
        } else {
            m
        }
    } else {
        ButtonView { debouncing: false, ..m }
    }
}

/// Release of a confirmed press: counts a tap unless the press became a hold,
/// cancels the tap sequence after a hold, and fires a single click for a tap.
pub open spec fn release_stage(m: ButtonView, now: u128) -> ButtonView {
    if !m.level && m.confirmed {
        let m1 = ButtonView {
            confirmed: false,
            pending: if m.hold {
                m.pending
            } else {
                bump(m.pending)
            },
            hold: false,
            released: true,
            edge_time: now,
            ..m
        };
        let m2 = if m1.holding_now {
            ButtonView { finalized: 0, pending: 0, holding_now: false, ..m1 }
        } else {
            m1
        };
        if m2.tap_in_flight {
            ButtonView { tap_in_flight: false, single_click: true, ..m2 }
        } else {
            m2
        }
    } else {
        m
    }
}

/// Hold detection: a confirmed press still asserted `timeout` after the
/// last edge becomes a hold, once per press.
pub open spec fn hold_stage(m: ButtonView, now: u128) -> ButtonView {
    if m.confirmed && m.level && elapsed(now, m.edge_time) >= m.timeout && !m.hold {
        ButtonView {
            hold: true,
            hold_clicks: m.pending as u32,
            hold_started: true,
            holding_now: true,
            tap_in_flight: false,
            edge_time: now,
            ..m
        }
    } else {
        m
    }
}

/// Click-group finalization: after `click_timeout` of release, the pending
/// taps become the finalized group.
pub open spec fn group_stage(m: ButtonView, now: u128) -> ButtonView {
    if elapsed(now, m.edge_time) >= m.click_timeout && m.pending != 0 && !m.level {
        ButtonView { finalized: m.pending as u32, pending: 0, group_ready: true, ..m }
    } else {
        m
    }
}

/// Consumer acknowledgment: a requested clear of the finalized group.
pub open spec fn ack_stage(m: ButtonView) -> ButtonView {
    if m.ack_requested {
        ButtonView { finalized: 0, group_ready: false, ack_requested: false, ..m }
    } else {
        m
    }
}

/// One step of the detector at time `now` on the sampled level `level`.
pub open spec fn step(m: ButtonView, now: u128, level: bool) -> ButtonView {
    let m0 = ButtonView { level, ..m };
    ack_stage(group_stage(hold_stage(release_stage(debounce_stage(m0, now), now), now), now))
}

/// The state after a series of steps, one per `(time, level)` sample, in order.
pub open spec fn run(m: ButtonView, samples: Seq<(u128, bool)>) -> ButtonView
    decreases samples.len(),
{
    if samples.len() == 0 {
        m
    } else {
        let last = samples.last();
        step(run(m, samples.drop_last()), last.0, last.1)
    }
}

fn elapsed_at_least(now: u128, since: u128, bound: u16) -> (r: bool)
    ensures
        r == (elapsed(now, since) >= bound),
{
    if now >= since {
        now - since >= bound as u128
    } else {
        bound == 0
    }
}

/// Sticky flags of a [Button].
pub struct ButtonFlags {
    btn_deb: bool,
    hold: bool,
    counter: bool,
    is_holded: bool,
    is_release: bool,
    is_press: bool,
    step_flag: bool,
    one_click: bool,
    is_one: bool,
    tick_mode: bool,
    counter_reset: bool,
}

/// A debounced multi-gesture button detector over a pin.
///
/// The button counts as asserted while its switch reads "disabled", as a
/// button that pulls its line to the inactive level when pressed does.
pub struct Button<P, D> where D: Direction {
    pin: Switch<P, D>,
    flags: ButtonFlags,
    btn_counter: u8,
    last_counter: u32,
    last_hold_counter: u32,
    btn_timer: u128,
    btn_state: bool,
    btn_flag: bool,
    debounce: u16,
    timeout: u16,
    click_timeout: u16,
    step_timeout: u16,
}

impl<P, D: Direction> View for Button<P, D> {
    type V = ButtonView;

    closed spec fn view(&self) -> ButtonView {
        ButtonView {
            debouncing: self.flags.btn_deb,
            hold: self.flags.hold,
            group_ready: self.flags.counter,
            hold_started: self.flags.is_holded,
            released: self.flags.is_release,
            pressed: self.flags.is_press,
            holding_now: self.flags.step_flag,
            tap_in_flight: self.flags.one_click,
            single_click: self.flags.is_one,
            tick_mode: self.flags.tick_mode,
            ack_requested: self.flags.counter_reset,
            pending: self.btn_counter,
            finalized: self.last_counter,
            hold_clicks: self.last_hold_counter,
            edge_time: self.btn_timer,
            level: self.btn_state,
            confirmed: self.btn_flag,
            debounce: self.debounce,
            timeout: self.timeout,
            click_timeout: self.click_timeout,
            step_timeout: self.step_timeout,
        }
    }
}

impl<P, D: Direction> Button<P, D> {
    /// The pin the button reads.
    pub closed spec fn pin(&self) -> P {
        self.pin.pin()
    }

    /// A detector in its idle state with the default timings.
    pub fn new(pin: P) -> (r: Self)
        ensures
            r@ == fresh(),
            r.pin() == pin,
    {
        Button {
            pin: pin.into_switch(),
            flags: ButtonFlags {
                btn_deb: false,
                hold: false,
                counter: false,
                is_holded: false,
                is_release: false,
                is_press: false,
                step_flag: false,
                one_click: false,
                is_one: false,
                tick_mode: false,
                counter_reset: false,
            },
            btn_counter: 0,
            last_counter: 0,
            last_hold_counter: 0,
            btn_timer: 0,
            btn_state: false,
            btn_flag: false,
            debounce: DEFAULT_DEBOUNCE_MS,
            timeout: DEFAULT_HOLD_TIMEOUT_MS,
            click_timeout: DEFAULT_CLICK_TIMEOUT_MS,
            step_timeout: DEFAULT_STEP_TIMEOUT_MS,
        }
    }

    /// Advances the detector by one step at `now_ms` on an already sampled
    /// level (`pressed` = asserted).
    pub fn tick_with_state(&mut self, now_ms: u128, pressed: bool)
        ensures
            final(self)@ == step(old(self)@, now_ms, pressed),
            final(self).pin() == old(self).pin(),
    {
        self.btn_state = pressed;
        self.debounce_edge(now_ms);
        self.release_edge(now_ms);
        self.detect_hold(now_ms);
        self.finalize_group(now_ms);
        self.acknowledge();
    }

    fn debounce_edge(&mut self, now_ms: u128)
        ensures
            final(self)@ == debounce_stage(old(self)@, now_ms),
            final(self).pin() == old(self).pin(),
    {
        if self.btn_state && !self.btn_flag {
            if !self.flags.btn_deb {
                self.flags.btn_deb = true;
                self.btn_timer = now_ms;
            } else if elapsed_at_least(now_ms, self.btn_timer, self.debounce) {
                self.btn_flag = true;
                self.flags.is_press = true;
                self.flags.one_click = true;
            }
        } else {
            self.flags.btn_deb = false;
        }
    }

    fn release_edge(&mut self, now_ms: u128)
        ensures
            final(self)@ == release_stage(old(self)@, now_ms),
            final(self).pin() == old(self).pin(),
    {
        if !self.btn_state && self.btn_flag {
            self.btn_flag = false;
            if !self.flags.hold && self.btn_counter < u8::MAX {
                self.btn_counter = self.btn_counter + 1;
            }
            self.flags.hold = false;
            self.flags.is_release = true;
            self.btn_timer = now_ms;
            if self.flags.step_flag {
                self.last_counter = 0;
                self.btn_counter = 0;
                self.flags.step_flag = false;
            }
            if self.flags.one_click {
                self.flags.one_click = false;
                self.flags.is_one = true;
            }
        }
    }

    fn detect_hold(&mut self, now_ms: u128)
        ensures
            final(self)@ == hold_stage(old(self)@, now_ms),
            final(self).pin() == old(self).pin(),
    {
        if self.btn_flag && self.btn_state && elapsed_at_least(now_ms, self.btn_timer, self.timeout)
            && !self.flags.hold {
            self.flags.hold = true;
            self.last_hold_counter = self.btn_counter as u32;
            self.flags.is_holded = true;
            self.flags.step_flag = true;
            self.flags.one_click = false;
            self.btn_timer = now_ms;
        }
    }

    fn finalize_group(&mut self, now_ms: u128)
        ensures
            final(self)@ == group_stage(old(self)@, now_ms),
            final(self).pin() == old(self).pin(),
    {
        if elapsed_at_least(now_ms, self.btn_timer, self.click_timeout) && self.btn_counter != 0
            && !self.btn_state {
            self.last_counter = self.btn_counter as u32;
            self.btn_counter = 0;
            self.flags.counter = true;
        }
    }

    fn acknowledge(&mut self)
        ensures
            final(self)@ == ack_stage(old(self)@),
            final(self).pin() == old(self).pin(),
    {
        if self.flags.counter_reset {
            self.last_counter = 0;
            self.flags.counter = false;
            self.flags.counter_reset = false;
        }
    }
}

impl<P, D: Direction> Button<P, D> {
    pub fn set_debounce(&mut self, debounce: u16)
        ensures
            final(self)@ == (ButtonView { debounce, ..old(self)@ }),
            final(self).pin() == old(self).pin(),
    {
        self.debounce = debounce;
    }

    pub fn set_timeout(&mut self, new_timeout: u16)
        ensures
            final(self)@ == (ButtonView { timeout: new_timeout, ..old(self)@ }),
            final(self).pin() == old(self).pin(),
    {
        self.timeout = new_timeout;
    }

    pub fn set_click_timeout(&mut self, new_timeout: u16)
        ensures
            final(self)@ == (ButtonView { click_timeout: new_timeout, ..old(self)@ }),
            final(self).pin() == old(self).pin(),
    {
        self.click_timeout = new_timeout;
    }

    pub fn set_step_timeout(&mut self, step_timeout: u16)
        ensures
            final(self)@ == (ButtonView { step_timeout, ..old(self)@ }),
            final(self).pin() == old(self).pin(),
    {
        self.step_timeout = step_timeout;
    }

    /// Records the auto-tick switch. The detector itself only steps when
    /// one of its tick methods is called.
    pub fn set_tick_mode(&mut self, tick_mode: bool)
        ensures
            final(self)@ == (ButtonView { tick_mode, ..old(self)@ }),
            final(self).pin() == old(self).pin(),
    {
        self.flags.tick_mode = tick_mode;
    }

    /// Reads and clears the press event.
    pub fn is_press(&mut self) -> (r: bool)
        ensures
            r == old(self)@.pressed,
            final(self)@ == (ButtonView { pressed: false, ..old(self)@ }),
            final(self).pin() == old(self).pin(),
    {
        if self.flags.is_press {
            self.flags.is_press = false;
            true
        } else {
            false
        }
    }

    /// Reads and clears the release event.
    pub fn is_release(&mut self) -> (r: bool)
        ensures
            r == old(self)@.released,
            final(self)@ == (ButtonView { released: false, ..old(self)@ }),
            final(self).pin() == old(self).pin(),
    {
        if self.flags.is_release {
            self.flags.is_release = false;
            true
        } else {
            false
        }
    }

    /// Reads and clears the single-click event.
    pub fn is_click(&mut self) -> (r: bool)
        ensures
            r == old(self)@.single_click,
            final(self)@ == (ButtonView { single_click: false, ..old(self)@ }),
            final(self).pin() == old(self).pin(),
    {
        if self.flags.is_one {
            self.flags.is_one = false;
            true
        } else {
            false
        }
    }

    /// Reads and clears the hold-started event.
    pub fn is_holded(&mut self) -> (r: bool)
        ensures
            r == old(self)@.hold_started,
            final(self)@ == (ButtonView { hold_started: false, ..old(self)@ }),
            final(self).pin() == old(self).pin(),
    {
        if self.flags.is_holded {
            self.flags.is_holded = false;
            true
        } else {
            false
        }
    }

    /// Whether a hold is active now.
    pub fn is_hold(&mut self) -> (r: bool)
        ensures
            r == old(self)@.holding_now,
            final(self)@ == old(self)@,
            final(self).pin() == old(self).pin(),
    {
        self.flags.step_flag
    }

    /// The last sampled level.
    pub fn state(&mut self) -> (r: bool)
        ensures
            r == old(self)@.level,
            final(self)@ == old(self)@,
            final(self).pin() == old(self).pin(),
    {
        self.btn_state
    }

    /// Whether a finalized click group of size `n` is waiting; if it is, the
    /// group is cleared on the next step.
    fn is_exactly(&mut self, n: u32) -> (r: bool)
        ensures
            r == (old(self)@.group_ready && old(self)@.finalized == n),
            final(self)@ == if r {
                ButtonView { ack_requested: true, ..old(self)@ }
            } else {
                old(self)@
            },
            final(self).pin() == old(self).pin(),
    {
        if self.flags.counter && self.last_counter == n {
            self.flags.counter_reset = true;
            true
        } else {
            false
        }
    }

    /// Whether the finalized click group is a single click.
    pub fn is_single(&mut self) -> (r: bool)
        ensures
            r == (old(self)@.group_ready && old(self)@.finalized == 1),
            final(self)@ == if r {
                ButtonView { ack_requested: true, ..old(self)@ }
            } else {
                old(self)@
            },
            final(self).pin() == old(self).pin(),
    {
        self.is_exactly(1)
    }

    /// Whether the finalized click group is a double click.
    pub fn is_double(&mut self) -> (r: bool)
        ensures
            r == (old(self)@.group_ready && old(self)@.finalized == 2),
            final(self)@ == if r {
                ButtonView { ack_requested: true, ..old(self)@ }
            } else {
                old(self)@
            },
            final(self).pin() == old(self).pin(),
    {
        self.is_exactly(2)
    }

    /// Whether the finalized click group is a triple click.
    pub fn is_triple(&mut self) -> (r: bool)
        ensures
            r == (old(self)@.group_ready && old(self)@.finalized == 3),
            final(self)@ == if r {
                ButtonView { ack_requested: true, ..old(self)@ }
            } else {
                old(self)@
            },
            final(self).pin() == old(self).pin(),
    {
        self.is_exactly(3)
    }

    /// Whether any finalized click group is waiting; if one is, it is
    /// cleared on the next step.
    pub fn has_clicks(&mut self) -> (r: bool)
        ensures
            r == old(self)@.group_ready,
            final(self)@ == if r {
                ButtonView { ack_requested: true, ..old(self)@ }
            } else {
                old(self)@
            },
            final(self).pin() == old(self).pin(),
    {
        if self.flags.counter {
            self.flags.counter_reset = true;
            true
        } else {
            false
        }
    }

    /// The size of the finalized click group (zero if none); the group is
    /// cleared on the next step.
    pub fn get_clicks(&mut self) -> (r: u32)
        ensures
            r == old(self)@.finalized,
            final(self)@ == (ButtonView { ack_requested: true, ..old(self)@ }),
            final(self).pin() == old(self).pin(),
    {
        self.flags.counter_reset = true;
        self.last_counter
    }

    /// The number of taps that preceded the last hold; nothing is cleared.
    pub fn get_hold_clicks(&mut self) -> (r: u32)
        ensures
            r == old(self)@.hold_clicks,
            final(self)@ == old(self)@,
            final(self).pin() == old(self).pin(),
    {
        self.last_hold_counter
    }

    /// Clears every event flag and click counter, for reinitializing after a
    /// change of configuration. The debounce and hold timing of a press in
    /// progress is kept.
    pub fn reset_states(&mut self)
        ensures
            final(self)@ == (ButtonView {
                pressed: false,
                released: false,
                single_click: false,
                hold_started: false,
                holding_now: false,
                group_ready: false,
                ack_requested: false,
                pending: 0,
                hold_clicks: 0,
                finalized: 0,
                ..old(self)@
            }),
            final(self).pin() == old(self).pin(),
    {
        self.flags.is_press = false;
        self.flags.is_release = false;
        self.flags.is_one = false;
        self.flags.is_holded = false;
        self.flags.step_flag = false;
        self.flags.counter = false;
        self.flags.counter_reset = false;
        self.btn_counter = 0;
        self.last_hold_counter = 0;
        self.last_counter = 0;
    }
}

impl<P: InputPin, D: Direction> Button<P, D> {
    /// Whether `r` is a possible answer to "is the button asserted": the
    /// button counts as asserted while its switch reads "disabled", which is
    /// the pin's `is_low` answer under `Normal` and its `is_high` answer
    /// under `Reverse`.
    pub open spec fn pressed_answer(&self, r: Result<bool, P::Error>) -> bool {
        if D::spec_is_normal() {
            self.pin().is_low_answer(r)
        } else {
            self.pin().is_high_answer(r)
        }
    }

    /// Reads the pin once: whether the button is asserted.
    fn sample(&self) -> (r: Result<bool, P::Error>)
        ensures
            self.pressed_answer(r),
    {
        self.pin.try_check_is_disabled()
    }

    /// Samples the pin once and advances the detector by one step at
    /// `now_ms`. A failed read changes nothing and is returned as it came.
    pub fn try_tick(&mut self, now_ms: u128) -> (r: Result<(), P::Error>)
        ensures
            match r {
                Ok(_) => exists|pressed: bool|
                    old(self).pressed_answer(Ok(pressed)) && final(self)@ == step(
                        old(self)@,
                        now_ms,
                        pressed,
                    ),
                Err(e) => old(self).pressed_answer(Err(e)) && final(self)@ == old(self)@,
            },
            final(self).pin() == old(self).pin(),
    {
        match self.sample() {
            Ok(pressed) => {
                self.tick_with_state(now_ms, pressed);
                Ok(())
            },
            Err(e) => Err(e),
        }
    }
}

impl<P: InputPin<Error = Infallible>, D: Direction> Button<P, D> {
    /// Samples the pin once and advances the detector by one step at
    /// `now_ms`.
    pub fn tick(&mut self, now_ms: u128)
        ensures
            exists|pressed: bool|
                old(self).pressed_answer(Ok(pressed)) && final(self)@ == step(
                    old(self)@,
                    now_ms,
                    pressed,
                ),
            final(self).pin() == old(self).pin(),
    {
        let pressed = infallible(self.sample());
        self.tick_with_state(now_ms, pressed);
    }
}

impl<'a, P: InputPin, D: Direction, U: Uptime> TryTickWithResource<&'a U> for Button<P, D> {
    type Error = P::Error;

    /// Samples the pin once, then reads the clock in whole milliseconds and
    /// advances the detector by one step. A failed read changes nothing,
    /// leaves the clock unread and is returned as it came.
    fn try_tick_with_resource(&mut self, uptime: &'a U) -> (r: Result<(), P::Error>)
        ensures
            match r {
                Ok(_) => exists|now_ms: u128, pressed: bool|
                    old(self).pressed_answer(Ok(pressed)) && final(self)@ == step(
                        old(self)@,
                        now_ms,
                        pressed,
                    ),
                Err(e) => old(self).pressed_answer(Err(e)) && final(self)@ == old(self)@,
            },
            final(self).pin() == old(self).pin(),
    {
        match self.sample() {
            Ok(pressed) => {
                let now_ms = uptime.get().as_millis();
                self.tick_with_state(now_ms, pressed);
                Ok(())
            },
            Err(e) => Err(e),
        }
    }
}

impl<'a, P: InputPin<Error = Infallible>, D: Direction, U: Uptime> TickWithResource<&'a U> for Button<
    P,
    D,
> {
    /// Samples the pin once, then reads the clock in whole milliseconds and
    /// advances the detector by one step.
    fn tick_with_resource(&mut self, uptime: &'a U)
        ensures
            exists|now_ms: u128, pressed: bool|
                old(self).pressed_answer(Ok(pressed)) && final(self)@ == step(
                    old(self)@,
                    now_ms,
                    pressed,
                ),
            final(self).pin() == old(self).pin(),
    {
        let pressed = infallible(self.sample());
        let now_ms = uptime.get().as_millis();
        self.tick_with_state(now_ms, pressed);
    }
}

} // verus!
