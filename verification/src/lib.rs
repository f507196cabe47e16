//! Input-to-report translation engine for a 4-axis, 12-button, 1-hat
//! wireless HID gamepad.
//!
//! The engine turns sampled axis magnitudes and a scanned button matrix
//! into a fixed-layout binary report whose byte layout matches the HID
//! report descriptor the host parses: four 16-bit axes in declared order,
//! then a 16-bit field holding 12 discrete button bits (low to high in
//! scan order) with the 4-bit hat-switch code in the high nibble.
//!
//! Hardware access (pin drives, ADC conversions, the wireless transport)
//! stays outside this crate: the scanner here decides which pins to drive
//! and how to interpret the sampled levels, and the poll driver decides
//! when to scan, while the surrounding program performs the electrical
//! work and hands plain values back.

pub mod buttons;
pub mod dpad;
pub mod gamepad;
pub mod poll;
pub mod report;
pub mod scan;
