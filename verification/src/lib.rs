//! A verified model of a single-core embedded supervision loop: a
//! priority-based task executor with priority-ceiling locking over a shared
//! bus, a hardware-watchdog supervisor, and the configure/arm/measure state
//! machine of a ranging (time-of-flight) sensor driven by that executor.
//!
//! The platform (clock tree, bus transactions, interrupt lines, the watchdog
//! peripheral itself) sits outside this crate: every bus transaction outcome
//! and every hardware event enters the model as a plain argument, and the
//! contracts state what the system decides for each possible outcome.

pub mod executor;
pub mod lock;
pub mod sensor;
pub mod system;
pub mod watchdog;
