//! Failures of the store, as the layer hands them to its callers.

use diesel::result::DatabaseErrorKind;
use vstd::prelude::*;

verus! {

/// The error with which `diesel` reports that a statement failed. What it
/// holds is not visible here; `reported_by` tells its variants apart.
#[verifier::external_type_specification]
#[verifier::external_body]
pub struct ExDieselError(diesel::result::Error);

/// What the driver said went wrong, as far as the layer tells its errors
/// apart.
#[derive(Debug, Clone, Copy, PartialEq, Eq, Structural)]
pub enum Reported {
    /// A statement that expects a row came back without one.
    NotFound,
    /// The store refused a row whose key is already taken.
    UniqueViolation,
    /// The store refused a row that refers to a row that does not exist.
    ForeignKeyViolation,
    /// The statement could not be sent to the store.
    UnableToSendCommand,
    /// A transaction could not be committed beside a concurrent one.
    SerializationFailure,
    /// The store reported an error of a kind the driver does not name.
    UnknownDatabaseError,
    /// The driver failed before or after talking to the store.
    Other,
}

/// The layer's own classes of failure.
#[derive(Debug, Clone, Copy, PartialEq, Eq, Structural)]
pub enum ErrorKind {
    /// No row matched.
    NotFound,
    /// A uniqueness or foreign-key rule of the schema was broken.
    ConstraintViolation,
    /// The store could not be reached.
    ConnectivityFailure,
    /// Any other failure of the store or the driver.
    Other,
}

/// The class of failure that a report of the driver falls under.
pub open spec fn kind_of(reported: Reported) -> ErrorKind {
    match reported {
        Reported::NotFound => ErrorKind::NotFound,
        Reported::UniqueViolation => ErrorKind::ConstraintViolation,
        Reported::ForeignKeyViolation => ErrorKind::ConstraintViolation,
        Reported::UnableToSendCommand => ErrorKind::ConnectivityFailure,
        Reported::SerializationFailure => ErrorKind::Other,
        Reported::UnknownDatabaseError => ErrorKind::Other,
        Reported::Other => ErrorKind::Other,
    }
}

/// What an error of the driver reports: the variant of the
/// `diesel::result::Error`, and for a `DatabaseError` the kind that `diesel`
/// names, each as the value of `Reported` of the same name; the variants
/// that the layer has no use for fall under `Other`.
pub uninterp spec fn reported_of(source: diesel::result::Error) -> Reported;

/// Tells the variants of a `diesel::result::Error` apart, and for a
/// `DatabaseError` the kinds that `diesel` names. Each arm maps one variant
/// to the value of `Reported` of the same name; the variants that the layer
/// has no use for fall under `Other`. The result depends on the error alone,
/// and `reported_of` is its name.
#[verifier::external_body]
fn reported_by(source: &diesel::result::Error) -> (reported: Reported)
    ensures
        reported == reported_of(*source),
{
    match source {
        diesel::result::Error::NotFound => Reported::NotFound,
        diesel::result::Error::DatabaseError(kind, _) => match kind {
            DatabaseErrorKind::UniqueViolation => Reported::UniqueViolation,
            DatabaseErrorKind::ForeignKeyViolation => Reported::ForeignKeyViolation,
            DatabaseErrorKind::UnableToSendCommand => Reported::UnableToSendCommand,
            DatabaseErrorKind::SerializationFailure => Reported::SerializationFailure,
            _ => Reported::UnknownDatabaseError,
        },
        _ => Reported::Other,
    }
}

/// A failure of the store: the driver's own error, kept as it came, beside
/// what it reports.
#[derive(Debug)]
pub struct StoreError {
    pub reported: Reported,
    pub source: diesel::result::Error,
}

impl StoreError {
    /// Wraps an error of the driver. The error itself is kept unchanged;
    /// `reported` is what the driver's error says of itself.
    pub fn new(source: diesel::result::Error) -> (e: StoreError)
        ensures
            e.source == source,
            e.reported == reported_of(source),
    {
        let reported = reported_by(&source);
        StoreError { reported, source }
    }

    /// The class of this failure.
    pub open spec fn spec_kind(&self) -> ErrorKind {
        kind_of(self.reported)
    }

    /// The class of this failure.
    #[verifier::when_used_as_spec(spec_kind)]
    pub fn kind(&self) -> (k: ErrorKind)
        ensures
            k == kind_of(self.reported),
    {
        match self.reported {
            Reported::NotFound => ErrorKind::NotFound,
            Reported::UniqueViolation => ErrorKind::ConstraintViolation,
            Reported::ForeignKeyViolation => ErrorKind::ConstraintViolation,
            Reported::UnableToSendCommand => ErrorKind::ConnectivityFailure,
            Reported::SerializationFailure => ErrorKind::Other,
            Reported::UnknownDatabaseError => ErrorKind::Other,
            Reported::Other => ErrorKind::Other,
        }
    }
}

} // verus!
