//! Verified core of a containerd shim and sandbox controller.
pub mod data;
pub mod error;
pub mod monitor;
pub mod publisher;
pub mod shim;
pub mod signals;
pub mod utils;
