use vstd::prelude::*;
use crate::conflict::{ReservationConflictInfo, is_conflict_info_of, parse_conflict};

verus! {

/// Identifier of a stored reservation.
pub type ReservationId = i64;

/// Errors reported by the reservation service.
#[derive(Debug, Clone, PartialEq, Eq)]
pub enum Error {
    /// A database failure that has no more specific meaning.
    DbError(String),
    /// The start or end time of a reservation is missing or out of order.
    InvalidTime,
    /// The requested time range overlaps an existing reservation.
    ConflictReservation(ReservationConflictInfo),
    /// The reservation id is not a valid id.
    InvalidReservationId(ReservationId),
    /// The user id is empty.
    InvalidUserId(String),
    /// The resource id is empty.
    InvalidResourceId(String),
    /// No reservation matches the given condition.
    NotFound,
    /// The page size of a filter is outside the accepted range.
    InvalidPageSize(i64),
    /// The cursor of a filter is negative.
    InvalidCursor(i64),
    /// The status code of a filter names no status.
    InvalidStatus(i32),
    /// Any other failure.
    Unknown,
}

/// A database failure as the service sees it.
#[derive(Debug, Clone, PartialEq, Eq)]
pub enum DbFailure {
    /// The statement returned no row where one was expected.
    RowNotFound,
    /// The database rejected the statement: its SQLSTATE code, the schema and
    /// table it names, its detail text and its message.
    Database {
        code: Option<String>,
        schema: Option<String>,
        table: Option<String>,
        detail: Option<String>,
        message: String,
    },
    /// Any other failure (connection, decoding, pool).
    Other(String),
}

/// Whether an optional text is present and equal to `lit`.
pub open spec fn is_text(o: Option<String>, lit: Seq<char>) -> bool {
    o matches Some(s) && s@ == lit
}

/// An exclusion violation (SQLSTATE `23P01`) on `rsvp.reservations`, which
/// the table raises when a reservation overlaps a stored one of the same
/// resource.
pub open spec fn is_reservation_conflict(
    code: Option<String>,
    schema: Option<String>,
    table: Option<String>,
) -> bool {
    &&& is_text(code, "23P01"@)
    &&& is_text(schema, "rsvp"@)
    &&& is_text(table, "reservations"@)
}

/// The error that a database failure is reported as: a missing row is
/// `NotFound`; an overlap on the reservations table that comes with a detail
/// is `ConflictReservation` with what the detail says (`is_conflict_info_of`);
/// anything else is `DbError` with the failure's message.
pub open spec fn is_error_of_db(e: Error, failure: DbFailure) -> bool {
    match failure {
        DbFailure::RowNotFound => e == Error::NotFound,
        DbFailure::Database { code, schema, table, detail, message } => {
            if is_reservation_conflict(code, schema, table) && detail is Some {
                e matches Error::ConflictReservation(info) && is_conflict_info_of(
                    info,
                    detail->Some_0@,
                )
            } else {
                e == Error::DbError(message)
            }
        },
        DbFailure::Other(message) => e == Error::DbError(message),
    }
}

fn has_text(o: &Option<String>, lit: &str) -> (r: bool)
    ensures
        r == is_text(*o, lit@),
{
    match o {
        Some(s) => *s == String::from_str(lit),
        None => false,
    }
}

impl Error {
    /// Reports a database failure as a service error (see `is_error_of_db`).
    pub fn from_db(failure: DbFailure) -> (r: Error)
        ensures
            is_error_of_db(r, failure),
    {
        match failure {
            DbFailure::RowNotFound => Error::NotFound,
            DbFailure::Database { code, schema, table, detail, message } => {
                let conflict = has_text(&code, "23P01") && has_text(&schema, "rsvp") && has_text(
                    &table,
                    "reservations",
                );
                match detail {
                    Some(d) if conflict => Error::ConflictReservation(parse_conflict(d.as_str())),
                    _ => Error::DbError(message),
                }
            },
            DbFailure::Other(message) => Error::DbError(message),
        }
    }
}

} // verus!
