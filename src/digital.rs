use vstd::prelude::*;

verus! {

/// A digital input: something whose electrical level can be read.
///
/// Each read samples the hardware anew and may fail with the pin's own error.
/// What a read may answer is described by `is_high_answer` and
/// `is_low_answer`; a pin that says nothing more admits every answer.
pub trait InputPin {
    type Error;

    /// Whether `r` is a possible answer of `is_high` on this pin.
    open spec fn is_high_answer(&self, r: Result<bool, Self::Error>) -> bool {
        true
    }

    /// Whether `r` is a possible answer of `is_low` on this pin.
    open spec fn is_low_answer(&self, r: Result<bool, Self::Error>) -> bool {
        true
    }

    fn is_high(&self) -> (r: Result<bool, Self::Error>)
        ensures
            self.is_high_answer(r),
    ;

    fn is_low(&self) -> (r: Result<bool, Self::Error>)
        ensures
            self.is_low_answer(r),
    ;
}

/// A digital output: something that can be driven to an electrical level.
///
/// What driving may do is described by `set_low_outcome` and
/// `set_high_outcome`, over the pin before, the pin after and the answer; a
/// pin that says nothing more admits every outcome.
pub trait OutputPin: Sized {
    type Error;

    /// Whether `set_low` on this pin may leave `after` and answer `r`.
    open spec fn set_low_outcome(&self, after: Self, r: Result<(), Self::Error>) -> bool {
        true
    }

    /// Whether `set_high` on this pin may leave `after` and answer `r`.
    open spec fn set_high_outcome(&self, after: Self, r: Result<(), Self::Error>) -> bool {
        true
    }

    fn set_low(&mut self) -> (r: Result<(), Self::Error>)
        ensures
            old(self).set_low_outcome(*final(self), r),
    ;

    fn set_high(&mut self) -> (r: Result<(), Self::Error>)
        ensures
            old(self).set_high_outcome(*final(self), r),
    ;
}

/// An output whose driven level can be read back.
pub trait StatefulOutputPin: OutputPin {
    /// Whether `r` is a possible answer of `is_set_high` on this pin.
    open spec fn is_set_high_answer(&self, r: Result<bool, Self::Error>) -> bool {
        true
    }

    /// Whether `r` is a possible answer of `is_set_low` on this pin.
    open spec fn is_set_low_answer(&self, r: Result<bool, Self::Error>) -> bool {
        true
    }

    fn is_set_high(&self) -> (r: Result<bool, Self::Error>)
        ensures
            self.is_set_high_answer(r),
    ;

    fn is_set_low(&self) -> (r: Result<bool, Self::Error>)
        ensures
            self.is_set_low_answer(r),
    ;
}

} // verus!
