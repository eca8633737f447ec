//! A conversational orchestration core for a tool-calling chat endpoint.
//!
//! The library builds typed conversation entries, interprets model responses
//! as final content or requested tool invocations, dispatches those
//! invocations through a name-keyed registry, and drives the round-by-round
//! orchestration state. The transport itself is an external collaborator:
//! the caller sends each request and feeds the response back as an event.

pub mod chat;
pub mod error;
pub mod json;
pub mod orchestrate;
pub mod registry;
pub mod response;
