//! Kernel mode-setting (KMS) objects and the calls that query and configure them.
pub mod control;
pub mod device;
pub mod error;

pub use device::{BusID, ClientCapability, Device, Driver, DriverCapability};
pub use error::Error;
