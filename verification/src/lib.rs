//! Camera configuration, ONVIF SOAP message construction and response
//! interpretation, and the HLS/HTTP plumbing decisions of a small home
//! security system.

pub mod config;
pub mod text;
pub mod encoding;
pub mod soap;
pub mod auth;
pub mod xml;
pub mod error;
pub mod address;
pub mod onvif;
pub mod camera;
pub mod hls;
pub mod server;
pub mod stream;
pub mod laws;
