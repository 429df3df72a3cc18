//! A client for the gpsd JSON protocol: the command lines a session sends,
//! the classification of each line the daemon sends back into a typed
//! response, and the rules by which a session handles what it reads.

pub mod json;
pub mod types;
pub mod tpv;
pub mod device;
pub mod classify;
pub mod session;

pub use classify::{classify, decode};
pub use json::{JsonNumber, JsonValue, Timestamp, parse_json};
pub use session::{
    GpsdError, LineStep, SessionState, devices_command, poll_command, version_command,
    watch_command,
};
pub use types::{
    DeviceObject, ParseError, Response, SatelliteObject, SkyResponse, TpvResponse, WatchObject,
};
