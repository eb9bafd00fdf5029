//! A driver for the capacitive touch-sensing controller (TSC) of STM32L0
//! microcontrollers.
//!
//! The driver configures the unit's charge-transfer timing, binds pins to
//! acquisition groups and channels, runs an acquisition and hands out the
//! resulting count. It reaches hardware only through the interfaces of
//! [`registers`]; [`sim`] implements them in memory.

pub mod registers;
pub mod config;
pub mod pin;
pub mod tsc;
pub mod sim;
