use vstd::prelude::*;
use crate::error::{DbFailure, Error, ReservationId, is_error_of_db};
use crate::reservation::{Reservation, is_validation_of, reservation_valid};
use crate::status::{ReservationStatus, status_code, status_or_pending};
use crate::time::{
    Timestamp, TimeSpan, UtcTime, convert_to_utc_time, is_timespan_of, is_utc_time_of,
    timespan_representable, timestamp_representable, valid_range,
};

verus! {

/// The row that reserving inserts into the reservations table.
pub struct ReserveCommand {
    pub user_id: String,
    pub resource_id: String,
    pub timespan: TimeSpan,
    pub note: String,
    pub status: ReservationStatus,
}

/// The insert that a valid reservation asks for: its user, resource and note,
/// its closed time span in UTC, and its status (`Pending` where the status
/// code names none).
pub open spec fn is_reserve_command_of(cmd: ReserveCommand, rsvp: Reservation) -> bool {
    &&& cmd.user_id@ == rsvp.user_id@
    &&& cmd.resource_id@ == rsvp.resource_id@
    &&& cmd.note@ == rsvp.note@
    &&& cmd.status == status_or_pending(rsvp.status)
    &&& is_timespan_of(cmd.timespan, rsvp.start->Some_0, rsvp.end->Some_0)
}

/// Whether the time range of a reservation, where the reservation is valid,
/// converts to UTC (a reservation that fails validation is refused before any
/// time is converted).
pub open spec fn reservable(rsvp: Reservation) -> bool {
    reservation_valid(rsvp) ==> timespan_representable(rsvp.start, rsvp.end)
}

/// Decides what reserving does: a reservation that fails validation is
/// refused with the validation error; a valid one becomes an insert.
pub fn plan_reserve(rsvp: &Reservation) -> (r: Result<ReserveCommand, Error>)
    requires
        reservable(*rsvp),
    ensures
        r is Ok <==> reservation_valid(*rsvp),
        r matches Err(e) ==> is_validation_of(Err(e), *rsvp),
        r matches Ok(cmd) ==> is_reserve_command_of(cmd, *rsvp),
        r matches Ok(cmd) ==> (0 <= rsvp.status <= 3 ==> status_code(cmd.status) == rsvp.status),
        r matches Ok(cmd) ==> (!(0 <= rsvp.status <= 3) ==> cmd.status == ReservationStatus::Pending),
{
    match rsvp.validate() {
        Err(e) => Err(e),
        Ok(()) => {
            let status = ReservationStatus::from_i32_or_pending(rsvp.status);
            let timespan = rsvp.get_timespan();
            Ok(
                ReserveCommand {
                    user_id: rsvp.user_id.clone(),
                    resource_id: rsvp.resource_id.clone(),
                    timespan,
                    note: rsvp.note.clone(),
                    status,
                },
            )
        },
    }
}

/// What reserving answers once the insert is done: the reservation that was
/// asked for, carrying the id that the database gave it, or the database
/// failure reported as a service error.
pub fn finish_reserve(rsvp: Reservation, inserted: Result<ReservationId, DbFailure>) -> (r: Result<
    Reservation,
    Error,
>)
    ensures
        inserted matches Ok(id) ==> r == Ok::<Reservation, Error>(Reservation { id, ..rsvp }),
        inserted matches Err(f) ==> r matches Err(e) && is_error_of_db(e, f),
{
    match inserted {
        Ok(id) => Ok(Reservation { id, ..rsvp }),
        Err(f) => Err(Error::from_db(f)),
    }
}

/// Checks the id of a reservation to confirm: 0 names no reservation.
pub fn check_change_status(id: ReservationId) -> (r: Result<(), Error>)
    ensures
        r == (if id == 0 {
            Err::<(), Error>(Error::InvalidReservationId(id))
        } else {
            Ok(())
        }),
{
    if id == 0 {
        Err(Error::InvalidReservationId(id))
    } else {
        Ok(())
    }
}

/// What a single-row operation (confirm, update note, get, delete) answers:
/// the row that the database returned, or its failure as a service error (a
/// missing row becomes `NotFound`).
pub fn finish_row(row: Result<Reservation, DbFailure>) -> (r: Result<Reservation, Error>)
    ensures
        row matches Ok(rsvp) ==> r == Ok::<Reservation, Error>(rsvp),
        row matches Err(f) ==> r matches Err(e) && is_error_of_db(e, f),
{
    match row {
        Ok(rsvp) => Ok(rsvp),
        Err(f) => Err(Error::from_db(f)),
    }
}

/// A search for reservations in a time window.
#[derive(Debug, Clone, PartialEq, Eq)]
pub struct ReservationQuery {
    /// The user to match; empty matches every user.
    pub user_id: String,
    /// The resource to match; empty matches every resource.
    pub resource_id: String,
    /// Wire code of the status to match.
    pub status: i32,
    pub start: Option<Timestamp>,
    pub end: Option<Timestamp>,
    /// Newest first when set.
    pub desc: bool,
}

/// The parameters of the search statement.
pub struct QueryCommand {
    pub user_id: Option<String>,
    pub resource_id: Option<String>,
    pub status: ReservationStatus,
    pub start: Option<UtcTime>,
    pub end: Option<UtcTime>,
    pub desc: bool,
}

/// An id filter: an empty string matches everything and becomes `None`.
pub open spec fn is_id_filter_of(o: Option<String>, s: String) -> bool {
    if s@.len() == 0 {
        o is None
    } else {
        o matches Some(v) && v@ == s@
    }
}

/// An optional bound converted to UTC.
pub open spec fn is_bound_of(o: Option<UtcTime>, t: Option<Timestamp>) -> bool {
    match t {
        Some(ts) => o matches Some(u) && is_utc_time_of(u, ts),
        None => o is None,
    }
}

/// The search that a query asks for.
pub open spec fn is_query_command_of(cmd: QueryCommand, q: ReservationQuery) -> bool {
    &&& is_id_filter_of(cmd.user_id, q.user_id)
    &&& is_id_filter_of(cmd.resource_id, q.resource_id)
    &&& cmd.status == status_or_pending(q.status)
    &&& is_bound_of(cmd.start, q.start)
    &&& is_bound_of(cmd.end, q.end)
    &&& cmd.desc == q.desc
}

/// Whether each given bound of a query converts to UTC.
pub open spec fn query_bounds_representable(q: ReservationQuery) -> bool {
    &&& q.start matches Some(s) ==> timestamp_representable(s)
    &&& q.end matches Some(e) ==> timestamp_representable(e)
}

/// An id filter from a possibly empty string.
pub fn string_to_option(s: &String) -> (r: Option<String>)
    ensures
        is_id_filter_of(r, *s),
{
    if s.as_str().is_empty() {
        None
    } else {
        Some(s.clone())
    }
}

fn bound_to_utc(t: &Option<Timestamp>) -> (r: Option<UtcTime>)
    requires
        t matches Some(ts) ==> timestamp_representable(*ts),
    ensures
        is_bound_of(r, *t),
{
    match t {
        Some(ts) => Some(convert_to_utc_time(ts)),
        None => None,
    }
}

/// Decides the parameters of the search statement for a query.
pub fn plan_query(q: &ReservationQuery) -> (r: QueryCommand)
    requires
        query_bounds_representable(*q),
    ensures
        is_query_command_of(r, *q),
        0 <= q.status <= 3 ==> status_code(r.status) == q.status,
        !(0 <= q.status <= 3) ==> r.status == ReservationStatus::Pending,
{
    QueryCommand {
        user_id: string_to_option(&q.user_id),
        resource_id: string_to_option(&q.resource_id),
        status: ReservationStatus::from_i32_or_pending(q.status),
        start: bound_to_utc(&q.start),
        end: bound_to_utc(&q.end),
        desc: q.desc,
    }
}

/// One item of the stream of search results.
pub enum QueryItem {
    /// A statement summary (no row).
    Summary,
    /// A matching row.
    Row(Reservation),
    /// A failure of the database.
    Failure(DbFailure),
}

/// What to do with a stream item.
pub enum QueryAction {
    /// Only note it in the log.
    Log,
    /// Hand this result to the receiver.
    Send(Result<Reservation, Error>),
    /// Nothing: the receiver is gone.
    Stop,
}

/// Forwards search results to a receiver until the receiver goes away.
pub struct QueryForwarder {
    open: bool,
}

/// The action for a stream item while the receiver is there: rows are sent
/// as `Ok`, failures as `Err` (reported as service errors), summaries logged.
pub open spec fn is_action_of_item(action: QueryAction, item: QueryItem) -> bool {
    match item {
        QueryItem::Summary => action is Log,
        QueryItem::Row(rsvp) => action == QueryAction::Send(Ok(rsvp)),
        QueryItem::Failure(f) => action matches QueryAction::Send(Err(e)) && is_error_of_db(e, f),
    }
}

impl QueryForwarder {
    /// Whether the receiver is still there.
    pub closed spec fn is_open(self) -> bool {
        self.open
    }

    /// A forwarder for a receiver that is there.
    pub fn new() -> (r: QueryForwarder)
        ensures
            r.is_open(),
    {
        QueryForwarder { open: true }
    }

    /// Whether the receiver is still there.
    pub fn open(&self) -> (r: bool)
        ensures
            r == self.is_open(),
    {
        self.open
    }

    /// The action for the next stream item: `is_action_of_item` while the
    /// receiver is there, `Stop` once it is gone.
    pub fn on_item(&self, item: QueryItem) -> (r: QueryAction)
        ensures
            self.is_open() ==> is_action_of_item(r, item),
            !self.is_open() ==> r == QueryAction::Stop,
    {
        if !self.open {
            return QueryAction::Stop;
        }
        match item {
            QueryItem::Summary => QueryAction::Log,
            QueryItem::Row(rsvp) => QueryAction::Send(Ok(rsvp)),
            QueryItem::Failure(f) => QueryAction::Send(Err(Error::from_db(f))),
        }
    }

    /// Records whether a sent result reached the receiver: a result that did
    /// not closes the forwarder, and a closed forwarder stays closed.
    pub fn on_delivery(&mut self, delivered: bool)
        ensures
            final(self).is_open() == (old(self).is_open() && delivered),
    {
        self.open = self.open && delivered;
    }
}

/// A reservation is inserted with the status its code names (Unknown 0,
/// Pending 1, Confirmed 2, Blocked 3); only a code that names none is
/// inserted as Pending.
pub proof fn lemma_reserve_keeps_named_status(cmd: ReserveCommand, rsvp: Reservation)
    requires
        is_reserve_command_of(cmd, rsvp),
    ensures
        rsvp.status == 0 ==> cmd.status == ReservationStatus::Unknown,
        rsvp.status == 1 ==> cmd.status == ReservationStatus::Pending,
        rsvp.status == 2 ==> cmd.status == ReservationStatus::Confirmed,
        rsvp.status == 3 ==> cmd.status == ReservationStatus::Blocked,
        (rsvp.status < 0 || rsvp.status > 3) ==> cmd.status == ReservationStatus::Pending,
{
}

/// A query searches for the status its code names (Unknown 0, Pending 1,
/// Confirmed 2, Blocked 3); only a code that names none searches for Pending.
pub proof fn lemma_query_keeps_named_status(cmd: QueryCommand, q: ReservationQuery)
    requires
        is_query_command_of(cmd, q),
    ensures
        q.status == 0 ==> cmd.status == ReservationStatus::Unknown,
        q.status == 1 ==> cmd.status == ReservationStatus::Pending,
        q.status == 2 ==> cmd.status == ReservationStatus::Confirmed,
        q.status == 3 ==> cmd.status == ReservationStatus::Blocked,
        (q.status < 0 || q.status > 3) ==> cmd.status == ReservationStatus::Pending,
{
}

} // verus!
