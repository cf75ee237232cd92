//! What the service layer decides on its own: which errors a request ends
//! in, and how each error is answered.

use crate::common::types::UuidVO;
use crate::common::value_object::ValueObjectOptional;
use vstd::prelude::*;
use vstd::string::*;

verus! {

/// How a repository call failed, as far as the services tell failures
/// apart.
#[derive(Debug, Clone, PartialEq)]
pub enum RepositoryFailure {
    /// The row asked for does not exist.
    RowNotFound,
    /// A uniqueness constraint refused the write.
    UniqueViolation(String),
    /// Any other failure, with its description.
    Other(String),
}

impl RepositoryFailure {
    /// The description of the failure.
    pub open spec fn spec_detail(&self) -> Seq<char> {
        match self {
            RepositoryFailure::RowNotFound => Self::ROW_NOT_FOUND@,
            RepositoryFailure::UniqueViolation(d) => d@,
            RepositoryFailure::Other(d) => d@,
        }
    }

    /// The description of a missing row.
    pub const ROW_NOT_FOUND: &'static str = "no rows returned by a query that expected to return at least one row";

    /// The description of the failure.
    pub fn detail(&self) -> (r: String)
        ensures
            r@ == self.spec_detail(),
    {
        match self {
            RepositoryFailure::RowNotFound => Self::ROW_NOT_FOUND.to_owned(),
            RepositoryFailure::UniqueViolation(d) => d.clone(),
            RepositoryFailure::Other(d) => d.clone(),
        }
    }
}

/// How an error is answered over HTTP.
#[derive(Debug, Clone, PartialEq)]
pub struct AppErrorParts {
    /// The HTTP status code.
    pub status: u16,
    /// Whether the message is shown to the user (otherwise it is only
    /// logged, and the answer hides it).
    pub user_facing: bool,
    /// Whether the error is logged at error level (otherwise at debug
    /// level).
    pub logged_as_error: bool,
    /// The message.
    pub message: String,
}

/// The message of an unprocessable request.
pub open spec fn unprocessable_message(m: Seq<char>) -> Seq<char> {
    "Hiba történt az adatok feldolgozása során: "@ + m
}

/// The message of a failed repository call.
pub open spec fn repository_message(d: Seq<char>) -> Seq<char> {
    "Repository error: "@ + d
}

/// Joins two texts.
pub fn join_text(a: &str, b: &str) -> (r: String)
    ensures
        r@ == a@ + b@,
{
    let s = a.to_owned();
    s.concat(b)
}

/// The errors that the shared service layer ends a request in.
#[derive(Debug, Clone, PartialEq)]
pub enum ServiceError {
    Repository(RepositoryFailure),
    Unauthorized,
    Conflict(&'static str),
    UnprocessableEntry(&'static str),
    InvalidSelectList,
    InvalidState,
    ParseError(String),
}

impl ServiceError {
    /// The message of a refused access.
    pub const UNAUTHORIZED: &'static str = "Hozzáférés megtagadva!";

    /// The message of an unknown select list.
    pub const INVALID_SELECT_LIST: &'static str = "A lista nem létezik";

    /// The message of an inconsistent state.
    pub const INVALID_STATE: &'static str = "Érvénytelen állapot";

    /// The message of a missing identifier on an update.
    pub const ID_REQUIRED: &'static str = "Az azonosító megadása kötelező!";

    /// The message the error displays.
    pub open spec fn spec_message(&self) -> Seq<char> {
        match self {
            ServiceError::Repository(f) => repository_message(f.spec_detail()),
            ServiceError::Unauthorized => Self::UNAUTHORIZED@,
            ServiceError::Conflict(m) => m@,
            ServiceError::UnprocessableEntry(m) => unprocessable_message(m@),
            ServiceError::InvalidSelectList => Self::INVALID_SELECT_LIST@,
            ServiceError::InvalidState => Self::INVALID_STATE@,
            ServiceError::ParseError(m) => "Parse error: "@ + m@,
        }
    }

    /// The message the error displays.
    pub fn to_string(&self) -> (r: String)
        ensures
            r@ == self.spec_message(),
    {
        match self {
            ServiceError::Repository(f) => {
                let d = f.detail();
                join_text("Repository error: ", d.as_str())
            },
            ServiceError::Unauthorized => Self::UNAUTHORIZED.to_owned(),
            ServiceError::Conflict(m) => (*m).to_owned(),
            ServiceError::UnprocessableEntry(m) => join_text(
                "Hiba történt az adatok feldolgozása során: ",
                *m,
            ),
            ServiceError::InvalidSelectList => Self::INVALID_SELECT_LIST.to_owned(),
            ServiceError::InvalidState => Self::INVALID_STATE.to_owned(),
            ServiceError::ParseError(m) => join_text("Parse error: ", m.as_str()),
        }
    }

    /// The status code of the answer.
    pub open spec fn spec_status(&self) -> u16 {
        match self {
            ServiceError::Unauthorized => 401,
            ServiceError::Conflict(_) => 409,
            ServiceError::UnprocessableEntry(_) => 422,
            ServiceError::Repository(RepositoryFailure::RowNotFound) => 404,
            _ => 500,
        }
    }

    /// How the error is answered: refused access, conflicts, unprocessable
    /// requests and missing rows are shown to the user; anything else is an
    /// internal error, logged at error level.
    pub fn to_app_error(&self) -> (r: AppErrorParts)
        ensures
            r.status == self.spec_status(),
            r.user_facing == (r.status != 500),
            r.logged_as_error == (r.status == 500),
            r.message@ == (if r.status == 404 {
                "Nem található"@
            } else {
                self.spec_message()
            }),
    {
        let status: u16 = match self {
            ServiceError::Unauthorized => 401,
            ServiceError::Conflict(_) => 409,
            ServiceError::UnprocessableEntry(_) => 422,
            ServiceError::Repository(RepositoryFailure::RowNotFound) => 404,
            _ => 500,
        };
        let message = if status == 404 {
            "Nem található".to_owned()
        } else {
            self.to_string()
        };
        AppErrorParts { status, user_facing: status != 500, logged_as_error: status == 500, message }
    }
}

/// How the shared service layer answers its errors: a missing row, and
/// nothing else, is answered "not found" (404); refused access, conflicts
/// and unprocessable requests are answered 401, 409 and 422; every other
/// failure is an internal error (500).
pub proof fn lemma_service_error_statuses(e: ServiceError)
    ensures
        e.spec_status() == 404 <==> e == ServiceError::Repository(RepositoryFailure::RowNotFound),
        e.spec_status() == 401 <==> e is Unauthorized,
        e.spec_status() == 409 <==> e is Conflict,
        e.spec_status() == 422 <==> e is UnprocessableEntry,
        e.spec_status() == 404 || e.spec_status() == 401 || e.spec_status() == 409
            || e.spec_status() == 422 || e.spec_status() == 500,
{
}

/// An update names the record it changes: without an identifier it is
/// refused as unprocessable.
pub fn require_id_for_update(id: &ValueObjectOptional<UuidVO>) -> (r: Result<(), ServiceError>)
    ensures
        r is Ok <==> id@ is Some,
        r matches Err(e) ==> e == ServiceError::UnprocessableEntry(ServiceError::ID_REQUIRED),
{
    if !id.is_present() {
        Err(ServiceError::UnprocessableEntry(ServiceError::ID_REQUIRED))
    } else {
        Ok(())
    }
}

/// An insert that breaks a uniqueness constraint is a conflict, with the
/// given message; other failures stay repository errors.
pub fn conflict_on_unique(failure: RepositoryFailure, message: &'static str) -> (r: ServiceError)
    ensures
        r == (match failure {
            RepositoryFailure::UniqueViolation(_) => ServiceError::Conflict(message),
            _ => ServiceError::Repository(failure),
        }),
{
    match failure {
        RepositoryFailure::UniqueViolation(_) => ServiceError::Conflict(message),
        _ => ServiceError::Repository(failure),
    }
}

} // verus!
