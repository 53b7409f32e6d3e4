//! A rules engine for MQTT: actions that come in from a broker run through an
//! ordered list of calls of slice functions over a shared JSON document, and
//! the messages that the calls give go back to the broker.
//!
//! The library holds the part that computes: the JSON document and its merge
//! patch ([`json`]), the engine with its commands and its pipeline
//! ([`master`]), the slice functions ([`rules`]), the loop that drives an
//! engine ([`runtime`]), and what crosses the border to the broker
//! ([`mqtt`]).

pub mod json;
pub mod master;
pub mod mqtt;
pub mod rules;
pub mod runtime;
pub mod text;
