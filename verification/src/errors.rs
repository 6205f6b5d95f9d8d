//! The error kinds of the pipeline and their diagnostic messages.

use vstd::prelude::*;
use vstd::string::StringExecFns;

verus! {

/// What can go wrong along the pipeline: the requested service is absent from
/// the lookup's answer, a required piece of configuration is missing, an
/// upstream call failed, or an upstream answer that must carry at least one
/// element carried none.
#[derive(Debug, PartialEq, Eq)]
pub enum RunError {
    /// The requested service was not in the service lookup's answer.
    NotFound { service: String },
    /// The service or the selected container lacks required configuration;
    /// `detail` names the missing piece.
    MissingConfiguration { detail: String },
    /// A transport or API-level failure from a collaborating service.
    UpstreamApi { message: String },
    /// An upstream call that is expected to return at least one element
    /// returned none; `what` names the call.
    UnexpectedEmptyResult { what: String },
}

/// The wrapped diagnostic of a failing service lookup: the requested
/// service's name, then the upstream failure's own text.
pub open spec fn spec_lookup_failure(service_name: Seq<char>, detail: Seq<char>) -> Seq<char> {
    "looking up service "@ + service_name + ": "@ + detail
}

/// The diagnostic text of an error, as a character sequence.
pub open spec fn spec_message(e: RunError) -> Seq<char> {
    match e {
        RunError::NotFound { service } => "Could not find service "@ + service@,
        RunError::MissingConfiguration { detail } => detail@,
        RunError::UpstreamApi { message } => "Error: "@ + message@,
        RunError::UnexpectedEmptyResult { what } => "Empty result from "@ + what@,
    }
}

impl RunError {
    /// Wraps a transport or API failure of the initial service lookup,
    /// surfacing the requested service's name beside the upstream text.
    pub fn lookup_failure(service_name: &str, detail: &str) -> (r: RunError)
        ensures
            (r matches RunError::UpstreamApi { message } && message@ == spec_lookup_failure(
                service_name@,
                detail@,
            )),
    {
        let mut m = String::from_str("looking up service ");
        m.append(service_name);
        m.append(": ");
        m.append(detail);
        RunError::UpstreamApi { message: m }
    }

    /// The diagnostic message shown to the operator.
    pub fn message(&self) -> (r: String)
        ensures
            r@ == spec_message(*self),
    {
        match self {
            RunError::NotFound { service } => {
                let mut m = String::from_str("Could not find service ");
                m.append(service.as_str());
                m
            },
            RunError::MissingConfiguration { detail } => String::from_str(detail.as_str()),
            RunError::UpstreamApi { message } => {
                let mut m = String::from_str("Error: ");
                m.append(message.as_str());
                m
            },
            RunError::UnexpectedEmptyResult { what } => {
                let mut m = String::from_str("Empty result from ");
                m.append(what.as_str());
                m
            },
        }
    }
}

} // verus!
