//! A small air-traffic simulation: aircraft moving on a wrapping grid, a
//! tick-driven simulation loop, and the request/response rules of the
//! service that publishes the latest traffic picture.

pub mod channel;
pub mod decimal;
pub mod flight;
pub mod http;
pub mod render;
pub mod simulation;
pub mod spawn;
