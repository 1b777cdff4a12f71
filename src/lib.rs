//! Provisioning of a single VirtualBox virtual machine through `VBoxManage`.
//!
//! The library decides what to run and in which order; the caller spawns the
//! processes and reports what they did.
pub mod medium;
pub mod plan;
pub mod profile;
pub mod laws;
