//! An I/O-free client core for the Govee cloud API.
//!
//! The crate builds the requests for the remote operations, reads what came
//! back against the vendor's wire schema, and normalises the loosely typed
//! answers into a stable model. The embedding application performs the HTTP
//! exchanges themselves and hands their outcomes in.

pub mod capability;
pub mod client;
pub mod correlator;
pub mod device;
pub mod encode;
pub mod error;
pub mod model;
pub mod normalize;
pub mod roundtrip;
pub mod scene;
pub mod schema;
pub mod settings;
pub mod temperature;
pub mod value;
pub mod wire;
