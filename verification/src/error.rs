use vstd::prelude::*;

verus! {

/// The closed set of failures this library can report.
///
/// Every error carries enough context (the tool name or call id where one
/// applies) for the caller to branch on the kind rather than parse text.
#[derive(Debug)]
pub enum Error {
    /// Malformed caller input to a message or descriptor builder.
    Validation { detail: String },
    /// A value could not be encoded for the wire.
    Serialization { detail: String },
    /// The remote endpoint returned no usable choice.
    EmptyResponse,
    /// A tool call named a tool that is not registered.
    UnknownTool { name: String },
    /// A tool call carried arguments that are not a well-formed document.
    ArgumentDecode { name: String },
    /// A registered handler was invoked and reported a failure of its own.
    Handler { name: String, detail: String },
    /// The transport adapter failed to deliver a request or response.
    Transport { detail: String },
    /// A tool call in a dispatch batch failed; wraps the per-call cause.
    ToolExecution { tool_call_id: String, cause: Box<Error> },
    /// The run was aborted between rounds by an external cancellation signal.
    Cancelled,
}

} // verus!
