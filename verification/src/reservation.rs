use vstd::prelude::*;
use crate::error::{Error, ReservationId};
use crate::status::ReservationStatus;
use crate::time::{
    Timestamp, TimeSpan, get_timespan, is_timespan_of, timespan_representable, valid_range,
    validate_range,
};

verus! {

/// A reservation of a resource by a user for a span of time.
#[derive(Debug, Clone, PartialEq, Eq)]
pub struct Reservation {
    pub id: ReservationId,
    pub user_id: String,
    pub resource_id: String,
    /// Wire code of the `ReservationStatus`.
    pub status: i32,
    pub start: Option<Timestamp>,
    pub end: Option<Timestamp>,
    pub note: String,
}

/// A reservation may be stored when it names a user and a resource and its
/// time range is valid.
pub open spec fn reservation_valid(rsvp: Reservation) -> bool {
    &&& rsvp.user_id@.len() != 0
    &&& rsvp.resource_id@.len() != 0
    &&& valid_range(rsvp.start, rsvp.end)
}

/// What checking a reservation reports: the first failing check in the order
/// user id, resource id, time range.
pub open spec fn is_validation_of(res: Result<(), Error>, rsvp: Reservation) -> bool {
    if rsvp.user_id@.len() == 0 {
        res matches Err(Error::InvalidUserId(u)) && u@ == rsvp.user_id@
    } else if rsvp.resource_id@.len() == 0 {
        res matches Err(Error::InvalidResourceId(r)) && r@ == rsvp.resource_id@
    } else if valid_range(rsvp.start, rsvp.end) {
        res == Ok::<(), Error>(())
    } else {
        res == Err::<(), Error>(Error::InvalidTime)
    }
}

/// Whether a reservation id can name a stored reservation (ids start at 1).
pub open spec fn id_valid(id: ReservationId) -> bool {
    id > 0
}

/// Checks a reservation id: `Error::InvalidReservationId(id)` unless it is positive.
pub fn validate_id(id: ReservationId) -> (r: Result<(), Error>)
    ensures
        r == (if id_valid(id) {
            Ok::<(), Error>(())
        } else {
            Err(Error::InvalidReservationId(id))
        }),
{
    if id <= 0 {
        Err(Error::InvalidReservationId(id))
    } else {
        Ok(())
    }
}

impl Reservation {
    /// A new pending reservation, not yet stored (its id is 0).
    pub fn new_pending(
        user_id: &str,
        resource_id: &str,
        start: Timestamp,
        end: Timestamp,
        note: &str,
    ) -> (r: Reservation)
        ensures
            r.id == 0,
            r.user_id@ == user_id@,
            r.resource_id@ == resource_id@,
            r.status == 1,
            r.start == Some(start),
            r.end == Some(end),
            r.note@ == note@,
    {
        Reservation {
            id: 0,
            user_id: String::from_str(user_id),
            resource_id: String::from_str(resource_id),
            status: ReservationStatus::Pending.code(),
            start: Some(start),
            end: Some(end),
            note: String::from_str(note),
        }
    }

    /// Checks that the reservation names a user and a resource and has a
    /// valid time range, reporting the first check that fails.
    pub fn validate(&self) -> (r: Result<(), Error>)
        ensures
            is_validation_of(r, *self),
            r is Ok <==> reservation_valid(*self),
    {
        if self.user_id.as_str().is_empty() {
            return Err(Error::InvalidUserId(self.user_id.clone()));
        }
        if self.resource_id.as_str().is_empty() {
            return Err(Error::InvalidResourceId(self.resource_id.clone()));
        }
        validate_range(self.start.as_ref(), self.end.as_ref())
    }

    /// The closed time span of the reservation, both ends in UTC.
    pub fn get_timespan(&self) -> (r: TimeSpan)
        requires
            timespan_representable(self.start, self.end),
        ensures
            is_timespan_of(r, self.start->Some_0, self.end->Some_0),
    {
        get_timespan(self.start.as_ref(), self.end.as_ref())
    }
}

} // verus!
