//! Polarity-aware digital switches and a debounced multi-gesture button detector.

pub mod direction;

pub use direction::{Direction, Normal, Reverse};

pub mod digital;

pub use digital::{InputPin, OutputPin, StatefulOutputPin};

pub mod switch;

pub use switch::{IntoSwitch, State, Switch};

pub mod mock;

pub mod button;

pub use button::{Button, ButtonFlags};

pub mod tick;

pub mod time;

pub use tick::{Tick, TickWithResource, TryTick, TryTickWithResource};
pub use time::Uptime;

pub mod gestures;
