//! Local mirror of field stations: a merge engine that reconciles device
//! reports with stored aggregates, and the SQLite repository behind it.

pub mod columns;
pub mod db;
pub mod error;
pub mod laws;
pub mod merge;
pub mod migrations;
pub mod model;
pub mod rows;
pub mod sql;
pub mod time;

pub use db::Db;
pub use error::DbError;
pub use merge::merge;
pub use model::{
    Battery, DeviceId, Firmware, LiveValue, Module, ModuleHeader, Sensor, Solar, Station,
    StationDownload, Stream,
};
pub use time::Timestamp;
