//! Boot-time configuration resolution and hardware identity.
//!
//! The crate decides, once per boot, which configuration profile a machine
//! should run and how its configured network devices map to live interface
//! names. It has four parts:
//!
//! * [`cmdline`] parses the kernel command line into typed overrides;
//! * [`models`] classifies the machine into a known hardware model from
//!   probed bus and block-device evidence;
//! * [`config`] selects the configuration source (override, model default,
//!   global default) and layers the overrides on top of the loaded file;
//! * [`interface`] resolves each configured device identifier to an
//!   operating-system interface name and an activation mode.
//!
//! All reads of the machine (files, buses, the network) happen outside this
//! crate; every function here is a total, verified function over the values
//! those reads produce.

pub mod cmdline;
pub mod config;
pub mod interface;
pub mod models;
pub mod text;

pub use config::{
    DeviceIdentifier, GithubKeys, HolosConfig, InterfaceAddress, NetworkConfig, NetworkInterface,
    SecurityConfig, StorageConfig,
};
