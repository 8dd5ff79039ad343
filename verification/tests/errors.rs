use airtally_restapi::errors::AppError;
use airtally_restapi::models::DecodeRequest;
use std::borrow::Cow;
use std::error::Error as StdError;
use std::fmt;

#[derive(Debug)]
struct FakeDatabaseError {
    constraint: Option<&'static str>,
}

impl fmt::Display for FakeDatabaseError {
    fn fmt(&self, f: &mut fmt::Formatter<'_>) -> fmt::Result {
        f.write_str("fake database error")
    }
}

impl StdError for FakeDatabaseError {}

impl sqlx::error::DatabaseError for FakeDatabaseError {
    fn message(&self) -> &str {
        "fake database error"
    }

    fn code(&self) -> Option<Cow<'_, str>> {
        None
    }

    fn as_error(&self) -> &(dyn StdError + Send + Sync + 'static) {
        self
    }

    fn as_error_mut(&mut self) -> &mut (dyn StdError + Send + Sync + 'static) {
        self
    }

    fn into_error(self: Box<Self>) -> Box<dyn StdError + Send + Sync + 'static> {
        self
    }

    fn kind(&self) -> sqlx::error::ErrorKind {
        sqlx::error::ErrorKind::Other
    }

    fn constraint(&self) -> Option<&str> {
        self.constraint
    }
}

fn database_error(constraint: Option<&'static str>) -> sqlx::Error {
    sqlx::Error::Database(Box::new(FakeDatabaseError { constraint }))
}

#[test]
fn responses_of_each_error() {
    let cases = [
        (AppError::FlightNotFound, 404u16, "Flight with given ID not found", "FLIGHT_NOT_FOUND"),
        (
            AppError::DuplicateFlight,
            409,
            "Flight number already exists for that date",
            "DUPLICATE_FLIGHT",
        ),
        (
            AppError::InvalidDepartureTime,
            400,
            "Departure time cannot be in the past",
            "INVALID_DEPARTURE_TIME",
        ),
        (
            AppError::InvalidBarcodeFormat,
            400,
            "Invalid barcode format for IATA decoding",
            "INVALID_BARCODE_FORMAT",
        ),
        (AppError::DatabaseError(sqlx::Error::RowNotFound), 500, "Internal server error", "INTERNAL_ERROR"),
    ];
    for (error, status, message, code) in cases {
        let response = error.response();
        assert_eq!(response.status, status);
        assert_eq!(response.message, message);
        assert_eq!(response.code, code);
    }
}

#[test]
fn response_of_a_validation_error() {
    let request = DecodeRequest { barcode_value: String::new(), scan_data_id: None };
    let error = AppError::from(request.validate().unwrap_err());
    assert!(matches!(error, AppError::ValidationError(_)));
    let response = error.response();
    assert_eq!(response.status, 400);
    assert_eq!(response.message, "Validation failed");
    assert_eq!(response.code, "VALIDATION_ERROR");
}

#[test]
fn database_errors_convert() {
    let error = AppError::from(sqlx::Error::RowNotFound);
    assert!(matches!(error, AppError::DatabaseError(sqlx::Error::RowNotFound)));
}

#[test]
fn failed_insert_on_the_unique_constraint_is_a_duplicate() {
    let error = AppError::from_failed_insert(database_error(Some("idx_unique_flight_per_day")));
    assert!(matches!(error, AppError::DuplicateFlight));
}

#[test]
fn failed_insert_on_anything_else_stays_a_database_error() {
    let error = AppError::from_failed_insert(database_error(Some("flights_pkey")));
    assert!(matches!(error, AppError::DatabaseError(sqlx::Error::Database(_))));
    let error = AppError::from_failed_insert(database_error(None));
    assert!(matches!(error, AppError::DatabaseError(sqlx::Error::Database(_))));
    let error = AppError::from_failed_insert(sqlx::Error::PoolTimedOut);
    assert!(matches!(error, AppError::DatabaseError(sqlx::Error::PoolTimedOut)));
}

#[test]
fn failed_insert_by_the_named_constraint() {
    let duplicate =
        AppError::for_failed_insert(Some("idx_unique_flight_per_day".to_string()), sqlx::Error::RowNotFound);
    assert!(matches!(duplicate, AppError::DuplicateFlight));
    let other =
        AppError::for_failed_insert(Some("idx_unique_flight_per_day ".to_string()), sqlx::Error::RowNotFound);
    assert!(matches!(other, AppError::DatabaseError(sqlx::Error::RowNotFound)));
    let none = AppError::for_failed_insert(None, sqlx::Error::RowNotFound);
    assert!(matches!(none, AppError::DatabaseError(sqlx::Error::RowNotFound)));
}
