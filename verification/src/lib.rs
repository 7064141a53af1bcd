//! Core logic of a split-flap display driver.
//!
//! A drum of printable symbols sits in each display cell ("bit"); all drums
//! share one stepper shaft and each couples to it through a clutch. A Hall
//! sensor marks one home position per revolution. This crate holds the
//! verified control logic: the symbol table, modular step arithmetic, the
//! per-bit homing state machine, and the shared-shaft coordination step.
//! Reading sensors and driving pins is left to the surrounding program.

pub mod diagnostics;
pub mod shaft_coordinator;
pub mod split_flap_bit_state;
pub mod symbol_table;
