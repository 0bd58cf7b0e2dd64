//! The errors that the operations of the core report.
use vstd::prelude::*;
use vstd::string::*;

verus! {

/// Why an operation failed.
#[derive(Debug, PartialEq, Eq)]
pub enum Error {
    /// The persistence layer failed, or a number left the range that it can
    /// hold.
    Database(String),
    /// No such entity for the tenant; the text names the kind of entity.
    NotFound(String),
    /// A transition that the document's state does not allow.
    BusinessRule(String),
    /// The caller's credentials were refused.
    Unauthorized,
    /// Malformed input.
    Validation(String),
}

/// An [`Error`] with its detail as a sequence of characters.
pub enum ErrorView {
    Database(Seq<char>),
    NotFound(Seq<char>),
    BusinessRule(Seq<char>),
    Unauthorized,
    Validation(Seq<char>),
}

impl View for Error {
    type V = ErrorView;

    open spec fn view(&self) -> ErrorView {
        match *self {
            Error::Database(detail) => ErrorView::Database(detail@),
            Error::NotFound(detail) => ErrorView::NotFound(detail@),
            Error::BusinessRule(detail) => ErrorView::BusinessRule(detail@),
            Error::Unauthorized => ErrorView::Unauthorized,
            Error::Validation(detail) => ErrorView::Validation(detail@),
        }
    }
}

impl ErrorView {
    /// The text that a person reads for this error.
    pub open spec fn text(self) -> Seq<char> {
        match self {
            ErrorView::Database(detail) => "Database error: "@ + detail,
            ErrorView::NotFound(detail) => "Entity not found: "@ + detail,
            ErrorView::BusinessRule(detail) => "Business rule violation: "@ + detail,
            ErrorView::Unauthorized => "Unauthorized access"@,
            ErrorView::Validation(detail) => "Validation error: "@ + detail,
        }
    }

    /// What the caller is told of this error. A violated rule, malformed
    /// input and a missing entity are told as they are; of a failure of the
    /// persistence layer nothing is told but that it happened.
    pub open spec fn public_message(self) -> Seq<char> {
        match self {
            ErrorView::Database(_) => "An internal error occurred"@,
            ErrorView::NotFound(detail) => detail,
            ErrorView::BusinessRule(detail) => detail,
            ErrorView::Unauthorized => "Unauthorized"@,
            ErrorView::Validation(detail) => detail,
        }
    }

    /// The status with which a request that met this error is answered:
    /// 404 for a missing entity, 400 for a violated rule and for
    /// malformed input, 401 for refused credentials, 500 for a failure of
    /// the persistence layer.
    pub open spec fn status(self) -> u16 {
        match self {
            ErrorView::Database(_) => 500,
            ErrorView::NotFound(_) => 404,
            ErrorView::BusinessRule(_) => 400,
            ErrorView::Unauthorized => 401,
            ErrorView::Validation(_) => 400,
        }
    }

    /// The error for a number that left the range of a decimal.
    pub open spec fn out_of_range() -> ErrorView {
        ErrorView::Database("numeric value out of range"@)
    }
}

impl Error {
    /// The text that a person reads for this error.
    pub fn to_string(&self) -> (r: String)
        ensures
            r@ == self@.text(),
    {
        match self {
            Error::Database(detail) => String::from_str("Database error: ").concat(
                detail.as_str(),
            ),
            Error::NotFound(detail) => String::from_str("Entity not found: ").concat(
                detail.as_str(),
            ),
            Error::BusinessRule(detail) => String::from_str("Business rule violation: ").concat(
                detail.as_str(),
            ),
            Error::Unauthorized => String::from_str("Unauthorized access"),
            Error::Validation(detail) => String::from_str("Validation error: ").concat(
                detail.as_str(),
            ),
        }
    }

    /// What the caller is told of this error: never the detail of a
    /// failure of the persistence layer.
    pub fn public_message(&self) -> (r: String)
        ensures
            r@ == self@.public_message(),
    {
        match self {
            Error::Database(_) => String::from_str("An internal error occurred"),
            Error::NotFound(detail) => detail.clone(),
            Error::BusinessRule(detail) => detail.clone(),
            Error::Unauthorized => String::from_str("Unauthorized"),
            Error::Validation(detail) => detail.clone(),
        }
    }

    /// The status with which a request that met this error is answered.
    pub fn status(&self) -> (r: u16)
        ensures
            r == self@.status(),
    {
        match self {
            Error::Database(_) => 500,
            Error::NotFound(_) => 404,
            Error::BusinessRule(_) => 400,
            Error::Unauthorized => 401,
            Error::Validation(_) => 400,
        }
    }

    /// The outcome of a statement that touched `rows_affected` rows: where
    /// it touched none, the entity is reported as not found, with the
    /// given text.
    pub fn require_rows(rows_affected: u64, otherwise: &str) -> (r: Result<(), Error>)
        ensures
            rows_affected > 0 ==> r is Ok,
            rows_affected == 0 ==> r is Err && r->Err_0@ == ErrorView::NotFound(otherwise@),
    {
        if rows_affected == 0 {
            Err(Error::NotFound(String::from_str(otherwise)))
        } else {
            Ok(())
        }
    }

    /// The error for a number that left the range of a decimal.
    pub fn out_of_range() -> (r: Error)
        ensures
            r@ == ErrorView::out_of_range(),
    {
        Error::Database(String::from_str("numeric value out of range"))
    }

    /// The error for an entity that the tenant does not have.
    pub fn not_found(what: &str) -> (r: Error)
        ensures
            r@ == ErrorView::NotFound(what@),
    {
        Error::NotFound(String::from_str(what))
    }

}

impl Clone for Error {
    fn clone(&self) -> (r: Error)
        ensures
            r == *self,
    {
        match self {
            Error::Database(detail) => Error::Database(detail.clone()),
            Error::NotFound(detail) => Error::NotFound(detail.clone()),
            Error::BusinessRule(detail) => Error::BusinessRule(detail.clone()),
            Error::Unauthorized => Error::Unauthorized,
            Error::Validation(detail) => Error::Validation(detail.clone()),
        }
    }
}

/// A result with its error taken by its view.
pub open spec fn result_view<T>(r: Result<T, Error>) -> Result<T, ErrorView> {
    match r {
        Ok(v) => Ok(v),
        Err(e) => Err(e@),
    }
}

/// Errors shared between the parts of the service.
#[derive(Debug, Clone, Copy, PartialEq, Eq)]
pub enum SharedError {
    Unknown,
}

impl SharedError {
    pub open spec fn text(self) -> Seq<char> {
        "Unknown error"@
    }

    pub fn to_string(&self) -> (r: String)
        ensures
            r@ == self.text(),
    {
        String::from_str("Unknown error")
    }
}

} // verus!
