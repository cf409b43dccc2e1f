//! Battery levels of connected Bluetooth devices.
//!
//! The levels come from two places. Low-energy peripherals that offer the
//! GATT Battery Service are asked one by one: connect, discover the service,
//! discover the Battery Level characteristic, read its value. Paired classic
//! devices have their levels in the records that the platform keeps of them.
//!
//! The library holds the logic and leaves the platform to the caller:
//!
//! - [`gatt`] is the coordinator of a discovery. It takes the platform's
//!   callbacks, keeps a session for each peripheral, and returns the requests
//!   that the caller passes on to the platform.
//! - [`discovery`] says what each callback does, as functions on plain data,
//!   and [`laws`] proves what holds of them whatever the platform reports.
//! - [`controller`] decides after each pump of the event loop whether to pump
//!   once more, and how the discovery ended.
//! - [`aggregate`] turns the readings and the records of paired devices into
//!   one list of [`device::Device`]s, each name once.
//! - [`battery`], [`device`] and [`text`] are the values that these work on.

pub mod aggregate;
pub mod battery;
pub mod controller;
pub mod device;
pub mod discovery;
pub mod gatt;
pub mod laws;
pub mod protocol;
pub mod session;
pub mod text;
