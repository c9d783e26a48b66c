//! A device module that reads a light, temperature and humidity sensor over MQTT.

pub mod conn;
pub mod device;
pub mod error;
pub mod module;
pub mod msg;
pub mod sensor;
pub mod store;
pub mod text;
