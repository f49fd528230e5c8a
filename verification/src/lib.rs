//! Configuration checks and tile arithmetic for tiled matrix multiplication
//! and convolution kernels: the launch-time decisions, stated and proved.

pub mod args;
pub mod definition;
pub mod error;
pub mod routines;
pub mod stage;
