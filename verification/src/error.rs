use vstd::prelude::*;

verus! {

/// Makes std's `std::io::Error` known, as an opaque type, so that
/// `DbError::IoError` can carry one.
#[verifier::external_type_specification]
#[verifier::external_body]
pub struct ExIoError(std::io::Error);

/// The errors that the scan operators report.
#[derive(Debug)]
pub enum DbError {
    /// A field was asked for that this operator does not provide
    /// (for instance one outside the projection list).
    FieldNotFound(String),
    /// `get_int()` was called on a string field, or `get_string()` on an
    /// integer field.
    TypeMismatch { field: String, expected: String, got: String },
    /// An input/output error.
    IoError(std::io::Error),
    /// Any other error.
    Other(String),
}

/// An input/output error becomes `DbError::IoError`.
impl From<std::io::Error> for DbError {
    fn from(e: std::io::Error) -> (r: DbError) {
        DbError::IoError(e)
    }
}

impl vstd::std_specs::convert::FromSpecImpl<std::io::Error> for DbError {
    open spec fn obeys_from_spec() -> bool {
        true
    }

    open spec fn from_spec(e: std::io::Error) -> DbError {
        DbError::IoError(e)
    }
}

/// What a `DbError` says, with its strings taken as character sequences.
pub enum DbErrorView {
    FieldNotFound(Seq<char>),
    TypeMismatch { field: Seq<char>, expected: Seq<char>, got: Seq<char> },
    IoError(std::io::Error),
    Other(Seq<char>),
}

impl View for DbError {
    type V = DbErrorView;

    open spec fn view(&self) -> DbErrorView {
        match self {
            DbError::FieldNotFound(f) => DbErrorView::FieldNotFound(f@),
            DbError::TypeMismatch { field, expected, got } => DbErrorView::TypeMismatch {
                field: field@,
                expected: expected@,
                got: got@,
            },
            DbError::IoError(e) => DbErrorView::IoError(*e),
            DbError::Other(m) => DbErrorView::Other(m@),
        }
    }
}

/// A result with its error taken by its view.
pub open spec fn result_view<T>(r: std::result::Result<T, DbError>) -> std::result::Result<
    T,
    DbErrorView,
> {
    match r {
        Ok(v) => Ok(v),
        Err(e) => Err(e@),
    }
}

/// The result type shared by the scan operators.
pub type Result<T> = std::result::Result<T, DbError>;

} // verus!
