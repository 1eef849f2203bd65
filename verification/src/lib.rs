//! Protocol-level driver for the calculator's external QSPI NOR flash chip,
//! verified against a simulated bus peripheral and chip model: addressing
//! geometry over three erase-unit sizes, the fixed command set, the
//! bus-transaction encoder, the type-state lifecycle driver, and the DFU
//! translation layer that a USB device stack drives.

pub mod buffer;
pub mod chip;
pub mod commands;
pub mod dfu;
pub mod external_flash;
pub mod geometry;
pub mod keypad;
pub mod model;
pub mod mpu;
pub mod pwm;
pub mod qspi;
pub mod regs;
