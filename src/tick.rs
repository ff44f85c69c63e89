use vstd::prelude::*;

verus! {

/// Something advanced by one step at a time.
pub trait Tick {
    fn tick(&mut self);
}

/// Something advanced by one step at a time, where a step may fail.
pub trait TryTick {
    type Error;

    fn try_tick(&mut self) -> Result<(), Self::Error>;
}

/// Something advanced by one step with the help of a resource.
pub trait TickWithResource<Resource> {
    fn tick_with_resource(&mut self, resource: Resource);
}

/// Something advanced by one step with the help of a resource, where a step
/// may fail.
pub trait TryTickWithResource<Resource> {
    type Error;

    fn try_tick_with_resource(&mut self, resource: Resource) -> Result<(), Self::Error>;
}

} // verus!
