//! Reservation service core: time ranges, reservation validation, status
//! conversions, and the decisions that the database layer acts on.

pub mod conflict;
pub mod error;
pub mod filter;
pub mod manager;
pub mod reservation;
pub mod status;
pub mod time;

pub use conflict::{
    ReservationConflict, ReservationConflictInfo, ReservationWindow, parse_conflict,
};
pub use error::{DbFailure, Error, ReservationId};
pub use filter::{FilterCommand, FilterPager, ReservationFilter, MAX_PAGE_SIZE, MIN_PAGE_SIZE};
pub use manager::{
    QueryAction, QueryCommand, QueryForwarder, QueryItem, ReservationQuery, ReserveCommand,
    check_change_status, finish_reserve, finish_row, plan_query, plan_reserve, string_to_option,
};
pub use reservation::{Reservation, validate_id};
pub use status::{ReservationStatus, RsvpStatus};
pub use time::{
    Timestamp, TimeBound, TimeSpan, UtcTime, convert_to_utc_time, get_timespan,
    is_representable, try_convert_to_utc_time, validate_range,
};
