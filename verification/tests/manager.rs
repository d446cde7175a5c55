use reservation::{
    check_change_status, finish_reserve, finish_row, plan_query, plan_reserve, string_to_option,
    validate_id, DbFailure, Error, ReservationConflict, ReservationConflictInfo, ReservationWindow, QueryAction, QueryForwarder, QueryItem, Reservation,
    ReservationQuery, ReservationStatus, TimeBound, Timestamp, convert_to_utc_time,
};

fn alice() -> Reservation {
    Reservation::new_pending(
        "aliceid",
        "ixia-test-1",
        Timestamp { seconds: 1_706_220_000, nanos: 0 },
        Timestamp { seconds: 1_708_887_600, nanos: 0 },
        "I need to book this for xyz project for a month.",
    )
}

#[test]
fn new_pending_reservation_has_no_id_and_pending_status() {
    let r = alice();
    assert_eq!(r.id, 0);
    assert_eq!(r.status, ReservationStatus::Pending as i32);
    assert_eq!(r.user_id, "aliceid");
    assert_eq!(r.resource_id, "ixia-test-1");
    assert!(r.validate().is_ok());
}

#[test]
fn validation_reports_first_failing_check() {
    let mut r = alice();
    r.user_id = String::new();
    r.resource_id = String::new();
    assert_eq!(r.validate(), Err(Error::InvalidUserId(String::new())));
    r.user_id = "aliceid".to_string();
    assert_eq!(r.validate(), Err(Error::InvalidResourceId(String::new())));
    r.resource_id = "ixia-test-1".to_string();
    r.end = r.start;
    assert_eq!(r.validate(), Err(Error::InvalidTime));
    r.end = None;
    assert_eq!(r.validate(), Err(Error::InvalidTime));
}

#[test]
fn reserve_plan_inserts_valid_reservation() {
    let r = alice();
    let cmd = plan_reserve(&r).unwrap();
    assert_eq!(cmd.user_id, "aliceid");
    assert_eq!(cmd.resource_id, "ixia-test-1");
    assert_eq!(cmd.note, r.note);
    assert_eq!(cmd.status, ReservationStatus::Pending);
    assert_eq!(cmd.status.to_string(), "pending");
    assert_eq!(cmd.timespan.start, TimeBound::Included(convert_to_utc_time(r.start.as_ref().unwrap())));
    assert_eq!(cmd.timespan.end, TimeBound::Included(convert_to_utc_time(r.end.as_ref().unwrap())));
}

#[test]
fn reserve_plan_uses_pending_for_unknown_code_and_refuses_invalid() {
    let mut r = alice();
    r.status = 42;
    assert_eq!(plan_reserve(&r).unwrap().status, ReservationStatus::Pending);
    r.status = ReservationStatus::Blocked as i32;
    assert_eq!(plan_reserve(&r).unwrap().status, ReservationStatus::Blocked);
    r.start = None;
    assert_eq!(plan_reserve(&r).err(), Some(Error::InvalidTime));
}

#[test]
fn reserve_returns_reservation_with_new_id() {
    let r = alice();
    let stored = finish_reserve(r.clone(), Ok(17)).unwrap();
    assert!(stored.id != 0);
    assert_eq!(stored.id, 17);
    assert_eq!(Reservation { id: 0, ..stored }, r);
}

fn db_failure(code: &str, schema: &str, table: &str, detail: Option<&str>, message: &str) -> DbFailure {
    DbFailure::Database {
        code: Some(code.to_string()),
        schema: Some(schema.to_string()),
        table: Some(table.to_string()),
        detail: detail.map(|d| d.to_string()),
        message: message.to_string(),
    }
}

const CONFLICT_DETAIL: &str = "Key (resource_id, timespan)=(ocean-view-room-713, [\"2023-12-26 22:00:00+00\",\"2023-12-30 19:00:00+00\"]) conflicts with existing key (resource_id, timespan)=(ocean-view-room-713, [\"2023-12-25 22:00:00+00\",\"2023-12-28 19:00:00+00\"]).";

#[test]
fn reserve_conflict_is_reported_with_both_windows() {
    let failure = db_failure(
        "23P01",
        "rsvp",
        "reservations",
        Some(CONFLICT_DETAIL),
        "conflicting key value violates exclusion constraint \"reservations_conflict\"",
    );
    let info = ReservationConflictInfo::Parsed(ReservationConflict {
        old: ReservationWindow {
            rid: "ocean-view-room-713".to_string(),
            start: Timestamp { seconds: 1_703_541_600, nanos: 0 },
            end: Timestamp { seconds: 1_703_790_000, nanos: 0 },
        },
        new: ReservationWindow {
            rid: "ocean-view-room-713".to_string(),
            start: Timestamp { seconds: 1_703_628_000, nanos: 0 },
            end: Timestamp { seconds: 1_703_962_800, nanos: 0 },
        },
    });
    assert_eq!(finish_reserve(alice(), Err(failure)), Err(Error::ConflictReservation(info)));
}

#[test]
fn database_failures_map_to_errors() {
    assert_eq!(Error::from_db(DbFailure::RowNotFound), Error::NotFound);
    assert_eq!(
        Error::from_db(db_failure("23505", "rsvp", "reservations", Some("d"), "dup")),
        Error::DbError("dup".to_string())
    );
    assert_eq!(
        Error::from_db(db_failure("23P01", "public", "reservations", Some(CONFLICT_DETAIL), "m")),
        Error::DbError("m".to_string())
    );
    assert_eq!(
        Error::from_db(db_failure("23P01", "rsvp", "other", Some(CONFLICT_DETAIL), "m")),
        Error::DbError("m".to_string())
    );
    assert_eq!(
        Error::from_db(db_failure("23P01", "rsvp", "reservations", None, "m")),
        Error::DbError("m".to_string())
    );
    assert_eq!(
        Error::from_db(db_failure("23P01", "rsvp", "reservations", Some("odd detail"), "m")),
        Error::ConflictReservation(ReservationConflictInfo::Unparsed("odd detail".to_string()))
    );
    assert_eq!(
        Error::from_db(DbFailure::Database {
            code: None,
            schema: None,
            table: None,
            detail: None,
            message: "m".to_string()
        }),
        Error::DbError("m".to_string())
    );
    assert_eq!(Error::from_db(DbFailure::Other("io".to_string())), Error::DbError("io".to_string()));
}

#[test]
fn change_status_rejects_only_zero_id() {
    assert_eq!(check_change_status(0), Err(Error::InvalidReservationId(0)));
    assert_eq!(check_change_status(1), Ok(()));
    assert_eq!(check_change_status(-3), Ok(()));
}

#[test]
fn lookups_require_positive_id() {
    assert_eq!(validate_id(0), Err(Error::InvalidReservationId(0)));
    assert_eq!(validate_id(-5), Err(Error::InvalidReservationId(-5)));
    assert_eq!(validate_id(1), Ok(()));
}

#[test]
fn missing_row_is_not_found() {
    assert_eq!(finish_row(Err(DbFailure::RowNotFound)), Err(Error::NotFound));
    let r = alice();
    assert_eq!(finish_row(Ok(r.clone())), Ok(r));
}

#[test]
fn query_plan_turns_empty_ids_into_wildcards() {
    let q = ReservationQuery {
        user_id: "aliceid".to_string(),
        resource_id: String::new(),
        status: ReservationStatus::Confirmed as i32,
        start: Some(Timestamp { seconds: 1_643_148_000, nanos: 0 }),
        end: None,
        desc: true,
    };
    let cmd = plan_query(&q);
    assert_eq!(cmd.user_id, Some("aliceid".to_string()));
    assert_eq!(cmd.resource_id, None);
    assert_eq!(cmd.status, ReservationStatus::Confirmed);
    assert_eq!(cmd.start, Some(convert_to_utc_time(q.start.as_ref().unwrap())));
    assert_eq!(cmd.end, None);
    assert!(cmd.desc);
    assert_eq!(string_to_option(&String::new()), None);
}

#[test]
fn forwarder_sends_rows_and_errors_until_receiver_leaves() {
    let mut f = QueryForwarder::new();
    assert!(f.open());
    assert!(matches!(f.on_item(QueryItem::Summary), QueryAction::Log));
    match f.on_item(QueryItem::Row(alice())) {
        QueryAction::Send(Ok(r)) => assert_eq!(r, alice()),
        _ => panic!("a row is sent as Ok"),
    }
    f.on_delivery(true);
    assert!(f.open());
    match f.on_item(QueryItem::Failure(DbFailure::RowNotFound)) {
        QueryAction::Send(Err(e)) => assert_eq!(e, Error::NotFound),
        _ => panic!("a failure is sent as Err"),
    }
    f.on_delivery(false);
    assert!(!f.open());
    assert!(matches!(f.on_item(QueryItem::Row(alice())), QueryAction::Stop));
    f.on_delivery(true);
    assert!(!f.open());
}
