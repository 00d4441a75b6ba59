//! The failures a tool call can surface, and the non-fatal collaborator
//! failures that never reach the caller.

use vstd::prelude::*;
use vstd::string::*;

verus! {

/// A failed tool call, as the external dispatcher sees it.
///
/// Only these reach the dispatcher.  A similarity-cache failure or a
/// usage-reporting failure never does: the pipeline swallows both.
#[derive(Debug)]
pub enum ToolError {
    /// A required argument is missing or has the wrong shape; the field
    /// names the offending argument.  User-correctable.
    InvalidArgument(String),
    /// No tool of the requested name is registered; the field names it.
    ToolNotFound(String),
    /// No API credential was configured, so no remote call can be made.
    MissingCredential,
    /// The transport collaborator failed to reach the remote API; the
    /// field carries its report.
    UpstreamUnavailable(String),
    /// The remote payload lacks a required field; the field names it.
    MalformedResponse(String),
}

impl ToolError {
    /// A short description of the failure, for the dispatcher to surface.
    pub fn message(&self) -> (r: String)
        ensures
            match self {
                ToolError::InvalidArgument(f) => r@ == "Missing or invalid "@ + f@,
                ToolError::ToolNotFound(n) => r@ == "No tool named "@ + n@,
                ToolError::MissingCredential => r@ == "PERPLEXITY_API_KEY not set in environment"@,
                ToolError::UpstreamUnavailable(d) => r@ == "Failed to call remote API: "@ + d@,
                ToolError::MalformedResponse(f) => r@ == "Failed to extract "@ + f@
                    + " from response"@,
            },
    {
        match self {
            ToolError::InvalidArgument(f) => {
                let mut s = String::from_str("Missing or invalid ");
                s.append(f.as_str());
                s
            },
            ToolError::ToolNotFound(n) => {
                let mut s = String::from_str("No tool named ");
                s.append(n.as_str());
                s
            },
            ToolError::MissingCredential => String::from_str(
                "PERPLEXITY_API_KEY not set in environment",
            ),
            ToolError::UpstreamUnavailable(d) => {
                let mut s = String::from_str("Failed to call remote API: ");
                s.append(d.as_str());
                s
            },
            ToolError::MalformedResponse(f) => {
                let mut s = String::from_str("Failed to extract ");
                s.append(f.as_str());
                s.append(" from response");
                s
            },
        }
    }
}

/// A failure inside a similarity-cache implementation.  Always non-fatal:
/// the gateway degrades to a cache miss.
#[derive(Debug)]
pub struct CacheError {
    pub detail: String,
}

/// A failure inside a usage-reporter implementation.  Always non-fatal:
/// the report is dropped.
#[derive(Debug)]
pub struct ReportError {
    pub detail: String,
}

} // verus!
