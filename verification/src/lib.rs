//! The logic of a Docker volume plugin that backs each volume with a
//! thin-provisioned LVM logical volume (LV).
//!
//! The library decides, the application acts: operations are state machines
//! whose steps name one [`effect::Effect`] at a time, and the replies to the
//! effects drive them on.
pub mod config;
pub mod effect;
pub mod errno;
pub mod error;
pub mod laws;
pub mod mountpoint;
pub mod octal;
pub mod opts;
pub mod plugin;
pub mod startup;
pub mod startup_laws;
pub mod table_laws;
pub mod volume_state;
pub mod volumes;
