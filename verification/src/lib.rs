//! Resolution and fallback execution for external-resource intents.
//!
//! The library turns a user-facing intent (open a folder, a URL, a phone
//! number, an e-mail draft, a WhatsApp conversation) into the address the
//! operating system should receive, chooses an ordered chain of launch
//! strategies for it, and drives the attempt/fallback loop as a state
//! machine.  Handing an address to the operating system is the caller's
//! job; the library decides what to hand over and in which order.

pub mod builder;
pub mod chain;
pub mod dispatch;
pub mod encode;
pub mod intent;
pub mod laws;
pub mod platform;
pub mod text;
