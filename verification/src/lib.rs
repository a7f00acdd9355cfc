//! Unified control plane for heterogeneous consumer smart lights.
//!
//! Three vendor families are supported: an HTTP/JSON bridge (`hue`), direct
//! TCP control with an XOR-obfuscated length-prefixed JSON framing (`kasa`),
//! and UDP multicast scan plus unicast JSON control (`govee`).  This crate
//! holds the protocol logic: frame codecs, message rendering, response
//! decoding, per-device cached state, discovery correlation and the batch
//! executor's bookkeeping.  The sockets themselves live with the caller, who
//! feeds bytes in and sends rendered requests out.

use vstd::prelude::*;

pub mod color;
pub mod config;
pub mod discover;
pub mod frame;
pub mod govee;
pub mod hue;
pub mod json;
pub mod kasa;
pub mod light;
pub mod text;

verus! {

/// Uniform failure surface of the library: transport failures, undecodable
/// payloads, and explicit negative replies from a device.
#[derive(Debug, Clone, Copy, PartialEq, Eq, Structural)]
pub enum LightError {
    /// The caller's transport reported a failure (connect, send, receive,
    /// or timeout).
    Transport,
    /// A payload arrived but could not be decoded as the expected JSON shape.
    Decode,
    /// The device answered with an unambiguous failure response.
    Device,
}

impl LightError {
    /// Human-readable description of the error kind.
    pub fn message(&self) -> (r: &'static str)
        ensures
            self is Transport ==> r@ == "transport failure"@,
            self is Decode ==> r@ == "protocol decode failure"@,
            self is Device ==> r@ == "device rejected the request"@,
    {
        match self {
            LightError::Transport => "transport failure",
            LightError::Decode => "protocol decode failure",
            LightError::Device => "device rejected the request",
        }
    }
}

} // verus!
