//! Host-side planning for a tiled matrix multiplication on a GPU.
//!
//! The crate decides everything the host has to get right before and after
//! the device runs: which buffers exist and how large they are, which buffer
//! sits in which binding slot of the kernel, how many workgroups cover the
//! matrix, which commands form the single submission, and in which order the
//! staging buffer may be mapped, read and released. Every function carries a
//! contract checked by Verus; the calls that reach a device are made by the
//! caller, step by step, as the driver in [`driver`] prescribes.

pub mod error;
pub mod fixture;
pub mod dims;
pub mod dispatch;
pub mod driver;
pub mod kernel;
pub mod layout;
pub mod readback;
pub mod resources;
pub mod usage;

pub use crate::fixture::create_random_matrix;
