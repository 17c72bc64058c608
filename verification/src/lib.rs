//! Driver for the VEML6075 UVA and UVB light sensor, generic over the I²C bus
//! it is reached through.
//!
//! The driver keeps a shadow copy of the sensor's write-only configuration
//! register and turns every change of a setting into one register write. Raw
//! channel readings are fetched as 16-bit little-endian register values.
//!
//! - [`config`] is the configuration register on its own: its bit layout, the
//!   settings it encodes and the effect of each change on the byte.
//! - [`wire`] holds the addresses and the two frame formats.
//! - [`transport`] is the bus capability the driver needs, with the record of
//!   the calls made on a bus.
//! - [`script`] is a bus that answers from a script and keeps the calls it
//!   gets, for trying the driver without a sensor.
//! - [`device`] is the driver.
//! - [`types`] holds the values that cross its public interface.
pub mod config;
pub mod device;
pub mod script;
pub mod transport;
pub mod types;
pub mod wire;

pub use crate::device::Veml6075;
pub use crate::script::{Call, Reply, ScriptError, ScriptedBus};
pub use crate::transport::Transport;
pub use crate::types::{DynamicSetting, Error, IntegrationTime, Mode, RawMeasurement};
