//! A device-side client for an AMQP 1.0 IoT hub: signed, time-limited tokens; the
//! session, link registry and recovery of a device's client as a state machine that
//! a transport drives; and the byte layouts of the sensors and payloads it carries.
pub mod text;
pub mod signing;
pub mod token;
pub mod errors;
pub mod config;
pub mod client;
pub mod sensor;
pub mod payload;
