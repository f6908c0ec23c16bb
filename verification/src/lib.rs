//! Core of a small microcontroller firmware: an interrupt-driven tick counter
//! guarded by a critical-section discipline, a UART transmitter with split
//! transmit/receive handles, and a leveled logging facade that writes through
//! the transmit handle.
//!
//! The hardware itself (registers, pins, the interrupt controller) is modeled
//! as plain values, so every state change the firmware makes — counting ticks,
//! toggling LEDs, queueing bytes for the wire — is stated in a contract and
//! proved. The thin layer that copies this state onto real registers lives
//! outside the library.

pub mod board;
pub mod interrupt;
pub mod logger;
pub mod mainloop;
pub mod uart;
