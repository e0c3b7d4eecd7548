//! Decision logic for a desktop shim around a local LLM runtime
//! binary: locating the binary among fixed candidate paths, forwarding
//! caller-supplied commands to it, launching its installer page, and
//! sequencing its OS-conditioned setup. Every process launch is left
//! to the caller; the library decides what to launch, what to reply,
//! and when to halt.

pub mod forwarder;
pub mod greeting;
pub mod install;
pub mod locator;
pub mod outcome;
pub mod setup;

pub use greeting::greet;
