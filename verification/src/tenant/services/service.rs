//! The decisions of the service catalogue: which lists it offers for
//! selection.

use crate::common::service::{conflict_on_unique, RepositoryFailure, ServiceError};
use crate::common::text::text_eq;
use vstd::prelude::*;

verus! {

/// The lists a service form offers for selection.
#[derive(Debug, Clone, Copy, PartialEq, Eq)]
pub enum ServicesSelectLists {
    Currencies,
    Taxes,
}

impl ServicesSelectLists {
    /// The list a name asks for.
    pub open spec fn spec_from_name(s: Seq<char>) -> Option<Self> {
        if s == "currencies"@ {
            Some(ServicesSelectLists::Currencies)
        } else if s == "taxes"@ {
            Some(ServicesSelectLists::Taxes)
        } else {
            None
        }
    }

    /// Reads the name of a list; an unknown name is an invalid select list.
    pub fn parse(s: &str) -> (r: Result<Self, ServiceError>)
        ensures
            match Self::spec_from_name(s@) {
                Some(v) => r == Ok::<Self, ServiceError>(v),
                None => r == Err::<Self, ServiceError>(ServiceError::InvalidSelectList),
            },
    {
        if text_eq(s, "currencies") {
            Ok(ServicesSelectLists::Currencies)
        } else if text_eq(s, "taxes") {
            Ok(ServicesSelectLists::Taxes)
        } else {
            Err(ServiceError::InvalidSelectList)
        }
    }
}

impl std::str::FromStr for ServicesSelectLists {
    type Err = ServiceError;

    fn from_str(s: &str) -> (r: Result<Self, Self::Err>)
        ensures
            match Self::spec_from_name(s@) {
                Some(v) => r == Ok::<Self, ServiceError>(v),
                None => r == Err::<Self, ServiceError>(ServiceError::InvalidSelectList),
            },
    {
        Self::parse(s)
    }
}

/// The message of an insert that would duplicate a service of the same name.
pub const SERVICE_EXISTS: &'static str = "A megadott névvel már létezik szolgáltatás a rendszerben!";

/// An insert refused by a uniqueness constraint is a conflict with
/// `SERVICE_EXISTS`; any other failure stays a repository error.
pub fn insert_failure(failure: RepositoryFailure) -> (r: ServiceError)
    ensures
        r == (match failure {
            RepositoryFailure::UniqueViolation(_) => ServiceError::Conflict(SERVICE_EXISTS),
            _ => ServiceError::Repository(failure),
        }),
{
    conflict_on_unique(failure, SERVICE_EXISTS)
}

} // verus!
