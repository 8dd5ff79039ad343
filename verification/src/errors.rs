//! The errors of the application and what each of them answers with.

use vstd::prelude::*;
use crate::text::str_eq;
use crate::validation::ValidationErrors;

verus! {

/// The error type of `sqlx`, carried through as it comes.
#[verifier::external_type_specification]
#[verifier::external_body]
pub struct ExSqlxError(sqlx::Error);

/// What can go wrong while a request is served.
#[derive(Debug)]
pub enum AppError {
    /// The database refused or failed.
    DatabaseError(sqlx::Error),
    /// The request broke rules.
    ValidationError(ValidationErrors),
    /// No flight has the given id.
    FlightNotFound,
    /// The flight number is taken for that day.
    DuplicateFlight,
    /// The departure lies in the past.
    InvalidDepartureTime,
    /// The barcode is no boarding pass.
    InvalidBarcodeFormat,
}

/// The answer to a failed request: status code, message and error code.
#[derive(Debug, Clone)]
pub struct ErrorResponse {
    pub status: u16,
    pub message: String,
    pub code: String,
}

impl From<sqlx::Error> for AppError {
    fn from(err: sqlx::Error) -> (r: AppError) {
        AppError::DatabaseError(err)
    }
}

impl vstd::std_specs::convert::FromSpecImpl<sqlx::Error> for AppError {
    open spec fn obeys_from_spec() -> bool {
        true
    }

    open spec fn from_spec(err: sqlx::Error) -> AppError {
        AppError::DatabaseError(err)
    }
}

impl From<ValidationErrors> for AppError {
    fn from(err: ValidationErrors) -> (r: AppError) {
        AppError::ValidationError(err)
    }
}

impl vstd::std_specs::convert::FromSpecImpl<ValidationErrors> for AppError {
    open spec fn obeys_from_spec() -> bool {
        true
    }

    open spec fn from_spec(err: ValidationErrors) -> AppError {
        AppError::ValidationError(err)
    }
}

/// Reads the name of the constraint that a database error reports: what
/// `sqlx::error::DatabaseError::constraint` gives for the variant
/// `sqlx::Error::Database`, nothing for every other variant. Nothing is
/// claimed of the name.
#[verifier::external_body]
fn violated_constraint(error: &sqlx::Error) -> (r: Option<String>) {
    match error {
        sqlx::Error::Database(db) => match db.constraint() {
            Some(name) => Some(name.to_string()),
            None => None,
        },
        _ => None,
    }
}

/// The constraint that keeps a flight number unique per day.
pub open spec fn unique_flight_constraint() -> Seq<char> {
    "idx_unique_flight_per_day"@
}

impl AppError {
    /// The HTTP status code of the error.
    pub open spec fn status(&self) -> u16 {
        match self {
            AppError::DatabaseError(_) => 500,
            AppError::ValidationError(_) => 400,
            AppError::FlightNotFound => 404,
            AppError::DuplicateFlight => 409,
            AppError::InvalidDepartureTime => 400,
            AppError::InvalidBarcodeFormat => 400,
        }
    }

    /// The message of the error.
    pub open spec fn message(&self) -> Seq<char> {
        match self {
            AppError::DatabaseError(_) => "Internal server error"@,
            AppError::ValidationError(_) => "Validation failed"@,
            AppError::FlightNotFound => "Flight with given ID not found"@,
            AppError::DuplicateFlight => "Flight number already exists for that date"@,
            AppError::InvalidDepartureTime => "Departure time cannot be in the past"@,
            AppError::InvalidBarcodeFormat => "Invalid barcode format for IATA decoding"@,
        }
    }

    /// The code of the error.
    pub open spec fn code(&self) -> Seq<char> {
        match self {
            AppError::DatabaseError(_) => "INTERNAL_ERROR"@,
            AppError::ValidationError(_) => "VALIDATION_ERROR"@,
            AppError::FlightNotFound => "FLIGHT_NOT_FOUND"@,
            AppError::DuplicateFlight => "DUPLICATE_FLIGHT"@,
            AppError::InvalidDepartureTime => "INVALID_DEPARTURE_TIME"@,
            AppError::InvalidBarcodeFormat => "INVALID_BARCODE_FORMAT"@,
        }
    }

    /// What the error answers with.
    pub fn response(&self) -> (r: ErrorResponse)
        ensures
            r.status == self.status(),
            r.message@ == self.message(),
            r.code@ == self.code(),
    {
        match self {
            AppError::DatabaseError(_) => ErrorResponse {
                status: 500,
                message: "Internal server error".to_owned(),
                code: "INTERNAL_ERROR".to_owned(),
            },
            AppError::ValidationError(_) => ErrorResponse {
                status: 400,
                message: "Validation failed".to_owned(),
                code: "VALIDATION_ERROR".to_owned(),
            },
            AppError::FlightNotFound => ErrorResponse {
                status: 404,
                message: "Flight with given ID not found".to_owned(),
                code: "FLIGHT_NOT_FOUND".to_owned(),
            },
            AppError::DuplicateFlight => ErrorResponse {
                status: 409,
                message: "Flight number already exists for that date".to_owned(),
                code: "DUPLICATE_FLIGHT".to_owned(),
            },
            AppError::InvalidDepartureTime => ErrorResponse {
                status: 400,
                message: "Departure time cannot be in the past".to_owned(),
                code: "INVALID_DEPARTURE_TIME".to_owned(),
            },
            AppError::InvalidBarcodeFormat => ErrorResponse {
                status: 400,
                message: "Invalid barcode format for IATA decoding".to_owned(),
                code: "INVALID_BARCODE_FORMAT".to_owned(),
            },
        }
    }

    /// The error for a failed insert of a flight, given the constraint that
    /// the database named: a duplicate flight where that is the constraint
    /// on the flight number per day, else the database error as it came.
    pub fn for_failed_insert(constraint: Option<String>, error: sqlx::Error) -> (r: AppError)
        ensures
            r == (if constraint matches Some(name) && name@ == unique_flight_constraint() {
                AppError::DuplicateFlight
            } else {
                AppError::DatabaseError(error)
            }),
    {
        let duplicate = match &constraint {
            Some(name) => str_eq(name.as_str(), "idx_unique_flight_per_day"),
            None => false,
        };
        if duplicate {
            AppError::DuplicateFlight
        } else {
            AppError::DatabaseError(error)
        }
    }

    /// The error for a failed insert of a flight: a duplicate flight or the
    /// database error as it came, by the constraint that the error names.
    pub fn from_failed_insert(error: sqlx::Error) -> (r: AppError)
        ensures
            r == AppError::DuplicateFlight || r == AppError::DatabaseError(error),
    {
        let constraint = violated_constraint(&error);
        AppError::for_failed_insert(constraint, error)
    }
}

} // verus!
