//! A verified core for a one-endpoint HTTP service that turns a random cat
//! image into an ASCII-art HTML document.
//!
//! The library holds the per-request pipeline logic: parsing the image-search
//! response, the status-code decisions, image decoding and ASCII rendering
//! (behind trusted wrappers over the `image` and `artem` crates), and the
//! request state machine that maps every outcome to an HTTP reply and a log
//! record. The surrounding process (listener, outbound HTTP, logging sink)
//! drives the state machine from outside.

pub mod errors;
pub mod json;
pub mod pipeline;
pub mod render;
pub mod strutil;
