//! Errors met while authorizing access to the calendar and fitness services.
use vstd::prelude::*;

verus! {

#[verifier::external_type_specification]
#[verifier::external_body]
pub struct ExIoError(std::io::Error);

/// Why authorization could not be set up.
#[derive(Debug)]
pub enum AuthError {
    /// Reading the application secret or the token store failed.
    Io(std::io::Error),
    /// Any other failure, described in words.
    Other(String),
}

impl From<std::io::Error> for AuthError {
    fn from(err: std::io::Error) -> (r: AuthError)
        ensures
            r == AuthError::Io(err),
    {
        AuthError::Io(err)
    }
}

impl vstd::std_specs::convert::FromSpecImpl<std::io::Error> for AuthError {
    open spec fn obeys_from_spec() -> bool {
        true
    }

    open spec fn from_spec(v: std::io::Error) -> AuthError {
        AuthError::Io(v)
    }
}

impl From<String> for AuthError {
    fn from(err: String) -> (r: AuthError)
        ensures
            r == AuthError::Other(err),
    {
        AuthError::Other(err)
    }
}

impl vstd::std_specs::convert::FromSpecImpl<String> for AuthError {
    open spec fn obeys_from_spec() -> bool {
        true
    }

    open spec fn from_spec(v: String) -> AuthError {
        AuthError::Other(v)
    }
}

} // verus!
