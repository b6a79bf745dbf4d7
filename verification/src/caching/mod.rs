//! Caching of processed images and of their metadata.

pub mod config;

pub mod cache;
