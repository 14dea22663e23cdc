use diesel::result::DatabaseErrorKind;
use diesel::result::Error;
use walkmap::errors::ErrorKind;
use walkmap::errors::Reported;
use walkmap::errors::StoreError;

fn database_error(kind: DatabaseErrorKind) -> Error {
    Error::DatabaseError(kind, Box::new("the store said no".to_string()))
}

#[test]
fn not_found_is_reported_as_such() {
    let err = StoreError::new(Error::NotFound);
    assert_eq!(err.reported, Reported::NotFound);
    assert_eq!(err.kind(), ErrorKind::NotFound);
    assert_eq!(err.source, Error::NotFound);
}

#[test]
fn unique_violation_is_a_constraint_violation() {
    let err = StoreError::new(database_error(DatabaseErrorKind::UniqueViolation));
    assert_eq!(err.reported, Reported::UniqueViolation);
    assert_eq!(err.kind(), ErrorKind::ConstraintViolation);
}

#[test]
fn foreign_key_violation_is_a_constraint_violation() {
    let err = StoreError::new(database_error(DatabaseErrorKind::ForeignKeyViolation));
    assert_eq!(err.reported, Reported::ForeignKeyViolation);
    assert_eq!(err.kind(), ErrorKind::ConstraintViolation);
}

#[test]
fn unsent_command_is_a_connectivity_failure() {
    let err = StoreError::new(database_error(DatabaseErrorKind::UnableToSendCommand));
    assert_eq!(err.reported, Reported::UnableToSendCommand);
    assert_eq!(err.kind(), ErrorKind::ConnectivityFailure);
}

#[test]
fn serialization_failure_is_another_failure() {
    let err = StoreError::new(database_error(DatabaseErrorKind::SerializationFailure));
    assert_eq!(err.reported, Reported::SerializationFailure);
    assert_eq!(err.kind(), ErrorKind::Other);
}

#[test]
fn unnamed_database_error_is_another_failure() {
    let err = StoreError::new(database_error(DatabaseErrorKind::__Unknown));
    assert_eq!(err.reported, Reported::UnknownDatabaseError);
    assert_eq!(err.kind(), ErrorKind::Other);
}

#[test]
fn driver_errors_are_other_failures() {
    let query: Box<dyn std::error::Error + Send + Sync> = "no changes".into();
    let read: Box<dyn std::error::Error + Send + Sync> = "bad column".into();
    let write: Box<dyn std::error::Error + Send + Sync> = "bad value".into();
    let errors = vec![
        Error::QueryBuilderError(query),
        Error::DeserializationError(read),
        Error::SerializationError(write),
        Error::RollbackTransaction,
        Error::AlreadyInTransaction,
    ];
    for source in errors {
        let err = StoreError::new(source);
        assert_eq!(err.reported, Reported::Other);
        assert_eq!(err.kind(), ErrorKind::Other);
    }
}

#[test]
fn the_driver_error_is_kept_as_it_came() {
    let err = StoreError::new(database_error(DatabaseErrorKind::ForeignKeyViolation));
    assert_eq!(err.source.to_string(), "the store said no");
    assert_eq!(err.source, database_error(DatabaseErrorKind::ForeignKeyViolation));
    assert_ne!(err.source, Error::NotFound);
}

#[test]
fn kind_goes_by_what_was_reported() {
    let cases = [
        (Reported::NotFound, ErrorKind::NotFound),
        (Reported::UniqueViolation, ErrorKind::ConstraintViolation),
        (Reported::ForeignKeyViolation, ErrorKind::ConstraintViolation),
        (Reported::UnableToSendCommand, ErrorKind::ConnectivityFailure),
        (Reported::SerializationFailure, ErrorKind::Other),
        (Reported::UnknownDatabaseError, ErrorKind::Other),
        (Reported::Other, ErrorKind::Other),
    ];
    for (reported, kind) in cases {
        let err = StoreError { reported, source: Error::RollbackTransaction };
        assert_eq!(err.kind(), kind);
    }
}
