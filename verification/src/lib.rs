//! Driver logic for a small analog/digital sensing stack on a two-wire bus:
//! the register codec and acquisition cycle of a 16-bit analog-to-digital
//! converter, an RGB-button peripheral, a thermistor voltage-divider model,
//! and a debounced digital-input state machine.

pub mod ads1115;
pub mod bus;
pub mod debounce;
pub mod df0991;
pub mod temperature;
