//! Image resizing with a content-addressed cache of the results.
pub mod batch;
pub mod config;
pub mod key;
pub mod request;
pub mod transform;
