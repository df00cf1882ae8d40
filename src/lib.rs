//! Driver logic for the general-purpose timers of an STM32F30x microcontroller.
//!
//! The driver turns a requested frequency into prescaler and auto-reload values,
//! and keeps the state of each timer's registers as it has programmed them, so
//! that the effect of every operation is stated over that register state.
pub mod divisor;
pub mod rcc;
pub mod time;
pub mod timer;
