//! Orbit: a chat dispatcher with model fallback, a streaming session protocol
//! and a typed command layer for controlling Ableton Live over OSC.
pub mod ableton;
pub mod capture;
pub mod connector;
pub mod dispatch;
pub mod json;
pub mod live_api;
pub mod message;
pub mod session;
pub mod text;
pub mod window;
