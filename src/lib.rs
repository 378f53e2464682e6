//! Peripheral drivers for a low-power microcontroller family: clock tree
//! configuration, timer pulse-width modulation and a two-wire serial bus master.
//!
//! Register access is kept behind small traits so that the protocol logic is
//! independent of a particular peripheral instance.
pub mod time;
pub mod rcc;
pub mod timing;
pub mod transaction;
pub mod protocol;
pub mod i2c;
pub mod pwm;
