//! Building blocks for polled, register-mapped hardware random number
//! generator drivers, and the driver for the Exynos true random number
//! generator built from them.
//!
//! Nothing in this crate touches hardware. Every operation that needs the
//! platform (reading the clock, sleeping, accessing a register, calling into
//! the clock, power or registry subsystems) is described as a value that the
//! caller carries out, and its outcome is handed back as a value.

pub mod clk;
pub mod device;
pub mod error;
pub mod exynos_trng;
pub mod hw_random;
pub mod io_mem;
pub mod iopoll;
pub mod ktime;
pub mod platform;
pub mod pm;
