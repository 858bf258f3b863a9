use vstd::prelude::*;

verus! {

/// A stored date text that does not read as an RFC 3339 timestamp.
#[derive(Debug, Clone, Copy, PartialEq, Eq, Structural)]
pub enum DecodeError {
    MalformedInstant,
}

/// What the entity store reports besides a result.
#[derive(Debug, Clone, Copy, PartialEq, Eq, Structural)]
pub enum StoreError {
    /// No row carries the identity asked for.
    NotFound,
    /// The store could not do its work (here: no identity is left to assign).
    Failure,
}

/// The outcome that a service hands to its caller in place of a record.
#[derive(Debug, Clone, Copy, PartialEq, Eq, Structural)]
pub enum ServiceError {
    /// Malformed input, or a date text that does not read back as an instant.
    Validation,
    /// No record has the identity asked for.
    NotFound,
    /// The store failed; no detail is passed on.
    StoreFailure,
}

impl ServiceError {
    /// The HTTP status that stands for this outcome at the boundary.
    pub open spec fn spec_status(self) -> u16 {
        match self {
            ServiceError::Validation => 400,
            ServiceError::NotFound => 404,
            ServiceError::StoreFailure => 500,
        }
    }

    pub fn status(&self) -> (r: u16)
        ensures
            r == self.spec_status(),
    {
        match self {
            ServiceError::Validation => 400,
            ServiceError::NotFound => 404,
            ServiceError::StoreFailure => 500,
        }
    }
}

impl From<StoreError> for ServiceError {
    fn from(e: StoreError) -> (r: ServiceError)
        ensures
            r == service_error_of_store(e),
    {
        match e {
            StoreError::NotFound => ServiceError::NotFound,
            StoreError::Failure => ServiceError::StoreFailure,
        }
    }
}

impl vstd::std_specs::convert::FromSpecImpl<StoreError> for ServiceError {
    open spec fn obeys_from_spec() -> bool {
        true
    }

    open spec fn from_spec(e: StoreError) -> ServiceError {
        service_error_of_store(e)
    }
}

impl From<DecodeError> for ServiceError {
    fn from(e: DecodeError) -> (r: ServiceError)
        ensures
            r == ServiceError::Validation,
    {
        ServiceError::Validation
    }
}

impl vstd::std_specs::convert::FromSpecImpl<DecodeError> for ServiceError {
    open spec fn obeys_from_spec() -> bool {
        true
    }

    open spec fn from_spec(e: DecodeError) -> ServiceError {
        ServiceError::Validation
    }
}

/// A store's NotFound stays NotFound; any other store fault is a StoreFailure.
pub open spec fn service_error_of_store(e: StoreError) -> ServiceError {
    match e {
        StoreError::NotFound => ServiceError::NotFound,
        StoreError::Failure => ServiceError::StoreFailure,
    }
}

} // verus!
