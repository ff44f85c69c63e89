use vstd::prelude::*;

verus! {

/// Types that can be used as a direction parameter.
///
/// There are two base directions: [Normal] and [Reverse]. A component that is
/// generic over a direction performs action `A` under [Normal] where it
/// performs action `B` under [Reverse], and the other way round.
pub trait Direction {
    /// Whether this is the normal (non-inverting) direction.
    spec fn spec_is_normal() -> bool;

    fn is_normal() -> (r: bool)
        ensures
            r == Self::spec_is_normal(),
    ;

    fn is_reverse() -> (r: bool)
        ensures
            r == !Self::spec_is_normal(),
    ;
}

/// The normal direction: "enabled" is the high electrical level.
#[derive(Clone, Copy, Debug, Ord, PartialOrd, Eq, PartialEq, Default, Hash)]
pub struct Normal;

impl Direction for Normal {
    open spec fn spec_is_normal() -> bool {
        true
    }

    fn is_normal() -> (r: bool) {
        true
    }

    fn is_reverse() -> (r: bool) {
        false
    }
}

/// The reverse direction: "enabled" is the low electrical level.
#[derive(Clone, Copy, Debug, Ord, PartialOrd, Eq, PartialEq, Default, Hash)]
pub struct Reverse;

impl Direction for Reverse {
    open spec fn spec_is_normal() -> bool {
        false
    }

    fn is_normal() -> (r: bool) {
        false
    }

    fn is_reverse() -> (r: bool) {
        true
    }
}

} // verus!
