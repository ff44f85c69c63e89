use vstd::prelude::*;

use core::convert::Infallible;
use core::marker::PhantomData;

use crate::digital::{InputPin, OutputPin};
use crate::direction::{Direction, Normal, Reverse};

verus! {

/// The logical state of a switch, independent of the electrical polarity.
#[derive(Copy, Clone, Debug, Ord, PartialOrd, Eq, PartialEq, Hash, Structural)]
pub enum State {
    Disabled,
    Enabled,
}

/// The state that a logical flag stands for: `true` is [State::Enabled].
pub open spec fn state_of(flag: bool) -> State {
    if flag {
        State::Enabled
    } else {
        State::Disabled
    }
}

impl Default for State {
    fn default() -> (r: Self)
        ensures
            r == State::Disabled,
    {
        State::Disabled
    }
}

impl From<bool> for State {
    fn from(flag: bool) -> (r: Self)
        ensures
            r == state_of(flag),
    {
        if flag {
            State::Enabled
        } else {
            State::Disabled
        }
    }
}

impl vstd::std_specs::convert::FromSpecImpl<bool> for State {
    open spec fn obeys_from_spec() -> bool {
        true
    }

    open spec fn from_spec(flag: bool) -> State {
        state_of(flag)
    }
}

/// The result of an operation that cannot fail.
pub type Infallibly<T> = Result<T, Infallible>;

/// Relies on `core::convert::Infallible` having no values: a result whose
/// error type is `Infallible` is always `Ok`.
#[verifier::external_body]
pub(crate) fn infallible<T>(res: Infallibly<T>) -> (r: T)
    ensures
        res == Infallibly::<T>::Ok(r),
{
    res.unwrap_or_else(|e| match e {})
}

/// The electrical level (`true` = high) that stands for the logical state
/// `enabled` under a direction whose normality is `normal`.
pub open spec fn level_for(normal: bool, enabled: bool) -> bool {
    enabled == normal
}

/// A newtype over a pin that gives it an application-level interface.
///
/// | Methods \ Directions | Normal     | Reverse    |
/// |----------------------|------------|------------|
/// | `{try_}disable`      | `set_low`  | `set_high` |
/// | `{try_}enable`       | `set_high` | `set_low`  |
#[derive(Debug)]
pub struct Switch<P, D = Normal> {
    inner: P,
    _pd: PhantomData<D>,
}

impl<P, D> Switch<P, D> {
    /// The wrapped pin.
    pub closed spec fn pin(&self) -> P {
        self.inner
    }

    /// Creates a new switch around `pin`.
    pub fn new(pin: P) -> (r: Self)
        ensures
            r.pin() == pin,
    {
        Switch { inner: pin, _pd: PhantomData }
    }

    /// Consumes this switch and returns the inner pin.
    pub fn into_inner(self) -> (r: P)
        ensures
            r == self.pin(),
    {
        self.inner
    }
}

impl<P, D: Direction> Switch<P, D> {
    /// Reinterprets the switch as [Normal], if it is normal already.
    pub fn normalize(self) -> (r: Option<Switch<P, Normal>>)
        ensures
            D::spec_is_normal() ==> (r matches Some(s) && s.pin() == self.pin()),
            !D::spec_is_normal() ==> r is None,
    {
        if D::is_normal() {
            Some(Switch::new(self.inner))
        } else {
            None
        }
    }

    /// Reinterprets the switch as [Reverse], if it is reverse already.
    pub fn reverberate(self) -> (r: Option<Switch<P, Reverse>>)
        ensures
            !D::spec_is_normal() ==> (r matches Some(s) && s.pin() == self.pin()),
            D::spec_is_normal() ==> r is None,
    {
        if D::is_normal() {
            None
        } else {
            Some(Switch::new(self.inner))
        }
    }
}

impl<P, D: Direction> Switch<P, D> {
    /// The electrical level (`true` = high) that stands for `state` under
    /// this switch's direction.
    pub fn level_for_state(state: State) -> (r: bool)
        ensures
            r == level_for(D::spec_is_normal(), state == State::Enabled),
    {
        match state {
            State::Disabled => !D::is_normal(),
            State::Enabled => D::is_normal(),
        }
    }

    /// The logical state that the electrical level `high` stands for under
    /// this switch's direction.
    pub fn state_for_level(high: bool) -> (r: State)
        ensures
            r == state_of(high == D::spec_is_normal()),
            level_for(D::spec_is_normal(), r == State::Enabled) == high,
    {
        State::from(high == D::is_normal())
    }
}

/// A read answer that carries a state as the flag "is enabled".
pub open spec fn enabled_flag<E>(r: Result<State, E>) -> Result<bool, E> {
    match r {
        Ok(st) => Ok(st == State::Enabled),
        Err(e) => Err(e),
    }
}

impl<P: OutputPin, D: Direction> Switch<P, D> {
    /// Whether driving this switch to the state `enabled` may leave `after`
    /// and answer `r`: the pin is set high when that state's level is high,
    /// low otherwise, and its answer is passed on.
    pub open spec fn drive_outcome(&self, after: Self, enabled: bool, r: Result<(), P::Error>) -> bool {
        if level_for(D::spec_is_normal(), enabled) {
            self.pin().set_high_outcome(after.pin(), r)
        } else {
            self.pin().set_low_outcome(after.pin(), r)
        }
    }

    /// Drives the pin to the level that means "disabled": low under
    /// [Normal], high under [Reverse]. A pin error is returned as it came.
    pub fn try_disable(&mut self) -> (r: Result<(), P::Error>)
        ensures
            old(self).drive_outcome(*final(self), false, r),
    {
        self.try_set_state(State::Disabled)
    }

    /// Drives the pin to the level that means "enabled": high under
    /// [Normal], low under [Reverse]. A pin error is returned as it came.
    pub fn try_enable(&mut self) -> (r: Result<(), P::Error>)
        ensures
            old(self).drive_outcome(*final(self), true, r),
    {
        self.try_set_state(State::Enabled)
    }

    /// Drives the pin to the level that stands for `state`.
    pub fn try_set_state(&mut self, state: State) -> (r: Result<(), P::Error>)
        ensures
            old(self).drive_outcome(*final(self), state == State::Enabled, r),
    {
        if Self::level_for_state(state) {
            self.inner.set_high()
        } else {
            self.inner.set_low()
        }
    }
}

impl<P: OutputPin<Error = Infallible>, D: Direction> Switch<P, D> {
    pub fn disable(&mut self)
        ensures
            old(self).drive_outcome(*final(self), false, Ok(())),
    {
        infallible(self.try_disable())
    }

    pub fn enable(&mut self)
        ensures
            old(self).drive_outcome(*final(self), true, Ok(())),
    {
        infallible(self.try_enable())
    }

    pub fn set_state(&mut self, state: State)
        ensures
            old(self).drive_outcome(*final(self), state == State::Enabled, Ok(())),
    {
        infallible(self.try_set_state(state))
    }
}

impl<P: InputPin, D: Direction> Switch<P, D> {
    /// Whether `r` is a possible answer to "does the pin read disabled":
    /// the pin's `is_low` answer under [Normal], its `is_high` answer under
    /// [Reverse].
    pub open spec fn disabled_answer(&self, r: Result<bool, P::Error>) -> bool {
        if D::spec_is_normal() {
            self.pin().is_low_answer(r)
        } else {
            self.pin().is_high_answer(r)
        }
    }

    /// Whether `r` is a possible answer to "does the pin read enabled":
    /// the pin's `is_high` answer under [Normal], its `is_low` answer under
    /// [Reverse].
    pub open spec fn enabled_answer(&self, r: Result<bool, P::Error>) -> bool {
        if D::spec_is_normal() {
            self.pin().is_high_answer(r)
        } else {
            self.pin().is_low_answer(r)
        }
    }

    /// Whether the pin reads the level that means "disabled". A pin error is
    /// returned as it came.
    pub fn try_check_is_disabled(&self) -> (r: Result<bool, P::Error>)
        ensures
            self.disabled_answer(r),
    {
        if D::is_normal() {
            self.inner.is_low()
        } else {
            self.inner.is_high()
        }
    }

    /// Whether the pin reads the level that means "enabled". A pin error is
    /// returned as it came.
    pub fn try_check_is_enabled(&self) -> (r: Result<bool, P::Error>)
        ensures
            self.enabled_answer(r),
    {
        if D::is_normal() {
            self.inner.is_high()
        } else {
            self.inner.is_low()
        }
    }

    /// The logical state that the pin reads.
    pub fn try_read_state(&self) -> (r: Result<State, P::Error>)
        ensures
            self.enabled_answer(enabled_flag(r)),
    {
        match self.try_check_is_enabled() {
            Ok(b) => Ok(State::from(b)),
            Err(e) => Err(e),
        }
    }
}

impl<P: InputPin<Error = Infallible>, D: Direction> Switch<P, D> {
    pub fn is_disabled(&self) -> (r: bool)
        ensures
            self.disabled_answer(Ok(r)),
    {
        infallible(self.try_check_is_disabled())
    }

    pub fn is_enabled(&self) -> (r: bool)
        ensures
            self.enabled_answer(Ok(r)),
    {
        infallible(self.try_check_is_enabled())
    }

    pub fn read_state(&self) -> (r: State)
        ensures
            self.enabled_answer(Ok(r == State::Enabled)),
    {
        State::from(self.is_enabled())
    }
}

impl<P: Clone, D> Clone for Switch<P, D> {
    fn clone(&self) -> (r: Self) {
        Switch { inner: self.inner.clone(), _pd: PhantomData }
    }
}

impl<P> From<Switch<P, Normal>> for Switch<P, Reverse> {
    /// Reinterprets a [Normal] switch as [Reverse], keeping the pin.
    fn from(switch: Switch<P, Normal>) -> (r: Self)
        ensures
            r.pin() == switch.pin(),
    {
        Switch::new(switch.inner)
    }
}

impl<P> vstd::std_specs::convert::FromSpecImpl<Switch<P, Normal>> for Switch<P, Reverse> {
    open spec fn obeys_from_spec() -> bool {
        false
    }

    open spec fn from_spec(switch: Switch<P, Normal>) -> Switch<P, Reverse> {
        arbitrary()
    }
}

impl<P> From<Switch<P, Reverse>> for Switch<P, Normal> {
    /// Reinterprets a [Reverse] switch as [Normal], keeping the pin.
    fn from(switch: Switch<P, Reverse>) -> (r: Self)
        ensures
            r.pin() == switch.pin(),
    {
        Switch::new(switch.inner)
    }
}

impl<P> vstd::std_specs::convert::FromSpecImpl<Switch<P, Reverse>> for Switch<P, Normal> {
    open spec fn obeys_from_spec() -> bool {
        false
    }

    open spec fn from_spec(switch: Switch<P, Reverse>) -> Switch<P, Normal> {
        arbitrary()
    }
}

impl<P> Switch<P, Normal> {
    /// Transforms a switch with [Normal] direction into [Reverse].
    pub fn into_revers(self) -> (r: Switch<P, Reverse>)
        ensures
            r.pin() == self.pin(),
    {
        Switch::<P, Reverse>::from(self)
    }
}

impl<P> Switch<P, Reverse> {
    /// Transforms a switch with [Reverse] direction into [Normal].
    pub fn into_normal(self) -> (r: Switch<P, Normal>)
        ensures
            r.pin() == self.pin(),
    {
        Switch::<P, Normal>::from(self)
    }
}

/// Provides the conversion of any pin into a switch.
pub trait IntoSwitch: Sized {
    fn into_switch<D: Direction>(self) -> (r: Switch<Self, D>)
        ensures
            r.pin() == self,
    ;
}

impl<P> IntoSwitch for P {
    fn into_switch<D: Direction>(self) -> (r: Switch<Self, D>) {
        Switch::new(self)
    }
}

} // verus!
