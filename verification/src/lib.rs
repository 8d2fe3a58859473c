//! Verification and dispatch of signed interaction events.
//!
//! A request is authenticated by its detached Ed25519 signature, its body is
//! read as an interaction envelope, and the envelope is answered with one of
//! a closed set of responses.

pub mod apod;
pub mod dispatch;
pub mod gateway;
pub mod hexcode;
pub mod interaction;
pub mod json;
pub mod options;
pub mod response;
pub mod signature;
