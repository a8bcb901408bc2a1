//! Framing, field extraction, frame composition and transmit control for a
//! GPS-to-radio beacon.
//!
//! Bytes from a serial GPS receiver are framed into sentences, the coordinate
//! fields of a positioning sentence are cut out, an outgoing frame is composed
//! and a small state machine decides what the radio is asked to do next.

pub mod buffer;
pub mod composer;
pub mod controller;
pub mod extractor;
pub mod framer;
pub mod pipeline;
pub mod stream;
pub mod telemetry;
pub mod text;
