//! Decoding of the service-data frames broadcast by Xiaomi BLE sensors, locks and scales into
//! typed sensor readings.
pub mod device;
pub mod error;
pub mod hhccjcy10;
pub mod mibeacon;
pub mod miscale;
pub mod sensor;
pub mod service;
pub mod util;

pub use error::ParseError;
pub use service::parse_service_advertisement;
