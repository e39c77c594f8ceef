//! Errors met while reading the fitness service.
use vstd::prelude::*;

use crate::auth::AuthError;

verus! {

#[verifier::external_type_specification]
#[verifier::external_body]
pub struct ExFitnessApiError(google_fitness1::Error);

/// Why a fitness operation failed.
#[derive(Debug)]
pub enum FitnessError {
    /// Authorization could not be set up.
    Auth(AuthError),
    /// The fitness service refused or failed a request.
    FitnessAPI(google_fitness1::Error),
    /// The service answered with something unusable, described in words.
    Other(String),
}

impl From<AuthError> for FitnessError {
    fn from(err: AuthError) -> (r: FitnessError)
        ensures
            r == FitnessError::Auth(err),
    {
        FitnessError::Auth(err)
    }
}

impl vstd::std_specs::convert::FromSpecImpl<AuthError> for FitnessError {
    open spec fn obeys_from_spec() -> bool {
        true
    }

    open spec fn from_spec(v: AuthError) -> FitnessError {
        FitnessError::Auth(v)
    }
}

impl From<google_fitness1::Error> for FitnessError {
    fn from(err: google_fitness1::Error) -> (r: FitnessError)
        ensures
            r == FitnessError::FitnessAPI(err),
    {
        FitnessError::FitnessAPI(err)
    }
}

impl vstd::std_specs::convert::FromSpecImpl<google_fitness1::Error> for FitnessError {
    open spec fn obeys_from_spec() -> bool {
        true
    }

    open spec fn from_spec(v: google_fitness1::Error) -> FitnessError {
        FitnessError::FitnessAPI(v)
    }
}

impl From<String> for FitnessError {
    fn from(err: String) -> (r: FitnessError)
        ensures
            r == FitnessError::Other(err),
    {
        FitnessError::Other(err)
    }
}

impl vstd::std_specs::convert::FromSpecImpl<String> for FitnessError {
    open spec fn obeys_from_spec() -> bool {
        true
    }

    open spec fn from_spec(v: String) -> FitnessError {
        FitnessError::Other(v)
    }
}

} // verus!
