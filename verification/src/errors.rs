//! Typed failures of the container command executor and the book resolver.

use vstd::prelude::*;

verus! {

/// Failure of one container command execution.
#[derive(Debug)]
pub enum ExecError {
    /// The runtime answered the inspect call but reported no id for the
    /// container: it does not exist (or is not yet created).
    ContainerNotFound { container_name: String },
    /// A runtime or transport failure from the inspect, create or start call,
    /// carried as the runtime's own message.
    RuntimeError { message: String },
}

/// Failure of one book resolution.
#[derive(Debug)]
pub enum ResolveError {
    /// The constructed search URL did not parse as a URL.
    InvalidUrl { url: String },
    /// A transport failure, a non-text search response, or a metadata
    /// document that could not be fetched and decoded.
    RequestFailed { url: String },
    /// The search page matched no result anchors.
    NoResults { query: String },
    /// The search page could not be interpreted: the result selector did not
    /// compile, or a matched anchor carried no link.
    ParseError { url: String },
}

} // verus!
