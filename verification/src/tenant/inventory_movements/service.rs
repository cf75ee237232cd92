//! The decisions of the stock movement service: which lists it offers for
//! selection, and how its errors are answered.

use crate::common::service::{
    join_text, repository_message, unprocessable_message, AppErrorParts, RepositoryFailure,
    lemma_service_error_statuses, ServiceError,
};
use crate::common::text::text_eq;
use vstd::prelude::*;

verus! {

/// The errors a stock movement request ends in.
#[derive(Debug, Clone, PartialEq)]
pub enum InventoryMovementsServiceError {
    Repository(RepositoryFailure),
    Unauthorized,
    UnprocessableEntry(&'static str),
    InvalidSelectList,
    PdfGenError(String),
    ParseError(String),
    IOError(String),
}

impl InventoryMovementsServiceError {
    /// The message of a refused access.
    pub const UNAUTHORIZED: &'static str = "Hozzáférés megtagadva!";

    /// The message of an unknown select list.
    pub const INVALID_SELECT_LIST: &'static str = "A lista nem létezik";

    /// The message the error displays.
    pub open spec fn spec_message(&self) -> Seq<char> {
        match self {
            InventoryMovementsServiceError::Repository(f) => repository_message(f.spec_detail()),
            InventoryMovementsServiceError::Unauthorized => Self::UNAUTHORIZED@,
            InventoryMovementsServiceError::UnprocessableEntry(m) => unprocessable_message(m@),
            InventoryMovementsServiceError::InvalidSelectList => Self::INVALID_SELECT_LIST@,
            InventoryMovementsServiceError::PdfGenError(m) => "PdfGen error: "@ + m@,
            InventoryMovementsServiceError::ParseError(m) => "Parse error: "@ + m@,
            InventoryMovementsServiceError::IOError(m) => "IO error: "@ + m@,
        }
    }

    /// The message the error displays.
    pub fn to_string(&self) -> (r: String)
        ensures
            r@ == self.spec_message(),
    {
        match self {
            InventoryMovementsServiceError::Repository(f) => {
                let d = f.detail();
                join_text("Repository error: ", d.as_str())
            },
            InventoryMovementsServiceError::Unauthorized => Self::UNAUTHORIZED.to_owned(),
            InventoryMovementsServiceError::UnprocessableEntry(m) => join_text(
                "Hiba történt az adatok feldolgozása során: ",
                *m,
            ),
            InventoryMovementsServiceError::InvalidSelectList => Self::INVALID_SELECT_LIST.to_owned(),
            InventoryMovementsServiceError::PdfGenError(m) => join_text("PdfGen error: ", m.as_str()),
            InventoryMovementsServiceError::ParseError(m) => join_text("Parse error: ", m.as_str()),
            InventoryMovementsServiceError::IOError(m) => join_text("IO error: ", m.as_str()),
        }
    }

    /// The status code of the answer.
    pub open spec fn spec_status(&self) -> u16 {
        match self {
            InventoryMovementsServiceError::Unauthorized => 401,
            InventoryMovementsServiceError::UnprocessableEntry(_) => 422,
            InventoryMovementsServiceError::Repository(RepositoryFailure::RowNotFound) => 404,
            _ => 500,
        }
    }

    /// How the error is answered: refused access, unprocessable requests
    /// and missing rows are shown to the user; anything else is an internal
    /// error, logged at error level.
    pub fn to_app_error(&self) -> (r: AppErrorParts)
        ensures
            r.status == self.spec_status(),
            r.user_facing == (r.status != 500),
            r.logged_as_error == (r.status == 500),
            r.message@ == (if r.status == 404 {
                "Nem található"@
            } else {
                self.spec_message()
            }),
    {
        let status: u16 = match self {
            InventoryMovementsServiceError::Unauthorized => 401,
            InventoryMovementsServiceError::UnprocessableEntry(_) => 422,
            InventoryMovementsServiceError::Repository(RepositoryFailure::RowNotFound) => 404,
            _ => 500,
        };
        let message = if status == 404 {
            "Nem található".to_owned()
        } else {
            self.to_string()
        };
        AppErrorParts { status, user_facing: status != 500, logged_as_error: status == 500, message }
    }
}

/// A stock movement request fails with the answer the shared service
/// layer gives the same failure: a missing row, and nothing else, is
/// answered "not found" (404); refused access is 401, an unprocessable
/// request 422; an unknown select list, PDF, parse and I/O failures are
/// internal errors (500).
pub proof fn lemma_movement_errors_answered_as_shared(e: InventoryMovementsServiceError)
    ensures
        e.spec_status() == 404 <==> e == InventoryMovementsServiceError::Repository(
            RepositoryFailure::RowNotFound,
        ),
        e matches InventoryMovementsServiceError::Repository(f) ==> e.spec_status()
            == ServiceError::Repository(f).spec_status(),
        e is Unauthorized ==> e.spec_status() == ServiceError::Unauthorized.spec_status(),
        e matches InventoryMovementsServiceError::UnprocessableEntry(m) ==> e.spec_status()
            == ServiceError::UnprocessableEntry(m).spec_status(),
        (e is InvalidSelectList || e is PdfGenError || e is ParseError || e is IOError)
            ==> e.spec_status() == 500,
{
    lemma_service_error_statuses(ServiceError::Repository(RepositoryFailure::RowNotFound));
}

/// The lists a stock movement form offers for selection.
#[derive(Debug, Clone, Copy, PartialEq, Eq)]
pub enum InventoryMovementsSelectLists {
    Worksheets,
    Taxes,
    Inventory,
}

impl InventoryMovementsSelectLists {
    /// The list a name asks for.
    pub open spec fn spec_from_name(s: Seq<char>) -> Option<Self> {
        if s == "worksheets"@ {
            Some(InventoryMovementsSelectLists::Worksheets)
        } else if s == "taxes"@ {
            Some(InventoryMovementsSelectLists::Taxes)
        } else if s == "inventory"@ {
            Some(InventoryMovementsSelectLists::Inventory)
        } else {
            None
        }
    }

    /// Reads the name of a list; an unknown name is an invalid select list.
    pub fn parse(s: &str) -> (r: Result<Self, InventoryMovementsServiceError>)
        ensures
            match Self::spec_from_name(s@) {
                Some(v) => r == Ok::<Self, InventoryMovementsServiceError>(v),
                None => r == Err::<Self, InventoryMovementsServiceError>(
                    InventoryMovementsServiceError::InvalidSelectList,
                ),
            },
    {
        if text_eq(s, "worksheets") {
            Ok(InventoryMovementsSelectLists::Worksheets)
        } else if text_eq(s, "taxes") {
            Ok(InventoryMovementsSelectLists::Taxes)
        } else if text_eq(s, "inventory") {
            Ok(InventoryMovementsSelectLists::Inventory)
        } else {
            Err(InventoryMovementsServiceError::InvalidSelectList)
        }
    }
}

impl std::str::FromStr for InventoryMovementsSelectLists {
    type Err = InventoryMovementsServiceError;

    fn from_str(s: &str) -> (r: Result<Self, Self::Err>)
        ensures
            match Self::spec_from_name(s@) {
                Some(v) => r == Ok::<Self, InventoryMovementsServiceError>(v),
                None => r == Err::<Self, InventoryMovementsServiceError>(InventoryMovementsServiceError::InvalidSelectList),
            },
    {
        Self::parse(s)
    }
}

} // verus!
