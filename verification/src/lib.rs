//! Image-processing option parsing, configuration and encoding rules for an
//! imgproxy-compatible image server.

pub mod text;
pub mod numbers;
pub mod limits;
pub mod string_map;
pub mod processing;
pub mod constants;
pub mod config;
pub mod caching;
pub mod middleware;
pub mod monitoring;
pub mod negotiation;
pub mod fetch;
pub mod handlers;
