//! A software MJPEG streamer for cameras that deliver raw frames.
//!
//! The library holds the rules of the service: how a request configures a
//! camera, when a worker is used again or replaced, how its capture loop goes
//! on, how frames are converted and framed, and what the endpoints answer.

pub mod app;
pub mod capture;
pub mod channel;
pub mod color;
pub mod config;
pub mod decimal;
pub mod error;
pub mod frame;
pub mod jpeg;
pub mod manager;
pub mod request;
pub mod roster;
pub mod startup;
pub mod text;
pub mod worker;
