//! The error taxonomy of the workflow. Every component surfaces failures to
//! its caller with enough context to identify the failing step.

use vstd::prelude::*;

verus! {

/// Why a message could not be built against an interface description.
#[derive(Clone, Copy, Debug, PartialEq, Eq, Structural)]
pub enum EncodingFault {
    /// The interface description does not declare the requested function.
    UnknownFunction,
    /// The supplied arguments do not satisfy the function's declared
    /// parameter shape.
    MalformedArguments,
}

/// A failure of one step of the deployment or invocation workflow.
#[derive(Debug)]
pub enum ContractError {
    /// Missing or invalid external configuration or key material.
    Config { detail: String },
    /// A transport or RPC failure reported by the network client.
    Network { detail: String },
    /// A message could not be built: the named function is unknown to the
    /// interface description, or the arguments are malformed.
    Encoding { function_name: String, fault: EncodingFault },
    /// No account matches the address, or the match has no serialized state.
    NotFound { address: String },
    /// Funding was not observed within the bounded polling window.
    Timeout { observations: u64, waited_units: u64 },
    /// A response does not match the expected shape.
    Decode { detail: String },
}

} // verus!
