//! Verified timing core of an STM32F103xx hardware abstraction layer.
//!
//! The crate holds the parts of the HAL that compute: the unit types for
//! frequencies and durations, the arithmetic of the monotonic cycle-counter
//! clock, and the independent watchdog driver, which turns a requested period
//! into prescaler and reload register values and into the sequence of
//! register writes that programs them. Nothing here touches a register:
//! counter readings come in as plain integers and register writes go out as
//! values, so every function is proved against its contract.

pub mod time;
pub mod watchdog;
