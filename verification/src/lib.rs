//! Peripheral drivers for STM32L4 microcontrollers, written so that every
//! decision they take is verified: an SD card host driver and the power
//! controller.
//!
//! Neither driver touches hardware. The SD host driver is a state machine that
//! asks for one register access at a time and is told what it returned; the
//! power controller driver works on an image of its registers. A board support
//! crate performs the accesses.

pub mod pwr;
pub mod sdmmc;
