//! Decision logic of a hydroponic sensor node: MQTT topic naming and routing,
//! the reporting schedule of the main loop, and the ultrasonic echo timing.

pub mod echo;
pub mod models;
pub mod schedule;
pub mod topics;
