//! In-memory stand-ins for hardware.

mod pin;

pub use pin::Pin;
