use vstd::prelude::*;

verus! {

/// The closed taxonomy of failure reasons that can cross the bridge
/// boundary. A caller can match on these three categories without any
/// host-specific error detail.
#[derive(Clone, Copy, Debug, PartialEq, Eq, Structural)]
pub enum QueryError {
    /// The completion token was destroyed without any terminal callback:
    /// an unexpected internal failure on the host side.
    RequestDropped,
    /// The host explicitly reported that its own deadline elapsed.
    TimeoutReached,
    /// The host explicitly reported an application-level failure.
    RequestFailed,
}

impl QueryError {
    /// A short description of the failure reason, one fixed line per variant.
    pub fn describe(&self) -> (s: String)
        ensures
            s@ == match *self {
                QueryError::RequestDropped => "Request dropped unexpectedly"@,
                QueryError::TimeoutReached => "Timeout reached"@,
                QueryError::RequestFailed => "Request failed"@,
            },
    {
        match self {
            QueryError::RequestDropped => String::from_str("Request dropped unexpectedly"),
            QueryError::TimeoutReached => String::from_str("Timeout reached"),
            QueryError::RequestFailed => String::from_str("Request failed"),
        }
    }
}

} // verus!
