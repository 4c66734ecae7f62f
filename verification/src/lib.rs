//! Automates adding remote books to a running library container and looking
//! books up against a third-party archive: the decision logic of a chat-driven
//! workflow, verified.
//!
//! The library is split along its outside edges. Everything that decides —
//! resolving a container id, assembling exec requests, accumulating streamed
//! output, spacing outbound requests, building and parsing search results,
//! sequencing the three-step add workflow — lives here, with contracts. The
//! surrounding process (the chat client, the container runtime connection,
//! the HTTP client) performs the actions these functions ask for and hands
//! the outcomes back.

pub mod chunks;
pub mod errors;
pub mod exec;
pub mod resolver;
pub mod throttle;
pub mod web;
pub mod workflow;
