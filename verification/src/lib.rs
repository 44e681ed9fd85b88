//! Verified driver core for a fixed-table memory protection unit (MPU).
//!
//! The crate models the MPU of a microcontroller that enforces memory
//! isolation with a small fixed table of address-range/permission
//! registers: a register-field layer (`regs`), and on top of it the
//! region allocator and the hardware synchronizer (`mpu`).

pub mod mpu;
pub mod regs;
