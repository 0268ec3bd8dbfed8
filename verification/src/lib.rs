//! Telemetry of a USB liquid-cooling controller: which endpoint to talk to,
//! what to send, in which order, and how to read the report that comes back.
//!
//! Nothing in this crate touches a device. A session is a state machine that
//! names the next transport operation and takes its result; the caller
//! performs the operation on whatever USB stack it has.
//!
//! - `descriptor`: the device's descriptor tree and the endpoints it declares.
//! - `protocol`: the wire constants and the three transfers of a reading.
//! - `report`: the report's layout and its decoding.
//! - `render`: a reading as text.
//! - `session`: the order of operations, what is fatal, and what is put back.

pub mod descriptor;
pub mod protocol;
pub mod render;
pub mod report;
pub mod session;
