//! A minimal chat relay: it accepts one user message, wraps it with a fixed
//! persona instruction, forwards it to a generative-language endpoint, and
//! maps every outcome of that call to an HTTP status and body.
//!
//! This crate holds the request-handling logic itself: shaping the upstream
//! request, extracting the reply text, and classifying every failure. The
//! surrounding server, the network client and the JSON plumbing live outside
//! it and hand plain values in and out.

pub mod handler;
pub mod message;
pub mod upstream;
