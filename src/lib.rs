//! A configurable fault-injecting HTTP responder: settings are read from
//! plain configuration strings, a failure and a delay are drawn at random,
//! and a JSON envelope describing the request is assembled.
pub mod text;
pub mod decoration;
pub mod config;
pub mod fault;
pub mod envelope;
