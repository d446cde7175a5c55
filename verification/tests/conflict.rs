use reservation::{parse_conflict, ReservationConflict, ReservationConflictInfo, ReservationWindow, Timestamp};

fn window(rid: &str, start: i64, end: i64) -> ReservationWindow {
    ReservationWindow {
        rid: rid.to_string(),
        start: Timestamp { seconds: start, nanos: 0 },
        end: Timestamp { seconds: end, nanos: 0 },
    }
}

#[test]
fn conflict_report_gives_new_and_old_window() {
    let detail = "Key (resource_id, timespan)=(ocean-view-room-713, [\"2023-12-26 22:00:00+00\",\"2023-12-30 19:00:00+00\")) conflicts with existing key (resource_id, timespan)=(ocean-view-room-713, [\"2023-12-25 22:00:00+00\",\"2023-12-28 19:00:00+00\")).";
    assert_eq!(
        parse_conflict(detail),
        ReservationConflictInfo::Parsed(ReservationConflict {
            new: window("ocean-view-room-713", 1_703_628_000, 1_703_962_800),
            old: window("ocean-view-room-713", 1_703_541_600, 1_703_790_000),
        })
    );
}

#[test]
fn conflict_report_reads_offsets() {
    let detail = "Key (resource_id, timespan)=(room_1, [\"2023-12-26 15:00:00-07\",\"2023-12-30 12:00:00-07\")) conflicts with existing key (resource_id, timespan)=(room-2, [\"2023-12-25 15:00:00-0700\",\"2023-12-28 12:00:00-07:00\")).";
    assert_eq!(
        parse_conflict(detail),
        ReservationConflictInfo::Parsed(ReservationConflict {
            new: window("room_1", 1_703_628_000, 1_703_962_800),
            old: window("room-2", 1_703_541_600, 1_703_790_000),
        })
    );
}

#[test]
fn other_text_stays_unparsed() {
    for detail in [
        "",
        "something else went wrong",
        // resource id with a space is not a resource id
        "Key (resource_id, timespan)=(room 1, [\"2023-12-26 22:00:00+00\",\"2023-12-30 19:00:00+00\")) conflicts with existing key (resource_id, timespan)=(room, [\"2023-12-25 22:00:00+00\",\"2023-12-28 19:00:00+00\")).",
        // missing final period
        "Key (resource_id, timespan)=(room, [\"2023-12-26 22:00:00+00\",\"2023-12-30 19:00:00+00\")) conflicts with existing key (resource_id, timespan)=(room, [\"2023-12-25 22:00:00+00\",\"2023-12-28 19:00:00+00\"))",
        // a time that chrono cannot read with the report's format
        "Key (resource_id, timespan)=(room, [\"2023-12-26 22:00:00.5+00\",\"2023-12-30 19:00:00+00\")) conflicts with existing key (resource_id, timespan)=(room, [\"2023-12-25 22:00:00+00\",\"2023-12-28 19:00:00+00\")).",
        // empty resource id
        "Key (resource_id, timespan)=(, [\"2023-12-26 22:00:00+00\",\"2023-12-30 19:00:00+00\")) conflicts with existing key (resource_id, timespan)=(room, [\"2023-12-25 22:00:00+00\",\"2023-12-28 19:00:00+00\")).",
    ] {
        assert_eq!(parse_conflict(detail), ReservationConflictInfo::Unparsed(detail.to_string()));
    }
}

#[test]
fn conflict_report_of_closed_spans_gives_both_windows() {
    let detail = "Key (resource_id, timespan)=(ocean-view-room-713, [\"2023-12-26 22:00:00+00\",\"2023-12-30 19:00:00+00\"]) conflicts with existing key (resource_id, timespan)=(ocean-view-room-713, [\"2023-12-25 22:00:00+00\",\"2023-12-28 19:00:00+00\"]).";
    assert_eq!(
        parse_conflict(detail),
        ReservationConflictInfo::Parsed(ReservationConflict {
            new: window("ocean-view-room-713", 1_703_628_000, 1_703_962_800),
            old: window("ocean-view-room-713", 1_703_541_600, 1_703_790_000),
        })
    );
}

#[test]
fn conflict_report_accepts_each_bracket_kind() {
    let detail = "Key (resource_id, timespan)=(room, (\"2023-12-26 22:00:00+00\",\"2023-12-30 19:00:00+00\"]) conflicts with existing key (resource_id, timespan)=(room, (\"2023-12-25 22:00:00+00\",\"2023-12-28 19:00:00+00\")).";
    assert_eq!(
        parse_conflict(detail),
        ReservationConflictInfo::Parsed(ReservationConflict {
            new: window("room", 1_703_628_000, 1_703_962_800),
            old: window("room", 1_703_541_600, 1_703_790_000),
        })
    );
}

#[test]
fn conflict_report_with_other_brackets_stays_unparsed() {
    for detail in [
        "Key (resource_id, timespan)=(room, {\"2023-12-26 22:00:00+00\",\"2023-12-30 19:00:00+00\"]) conflicts with existing key (resource_id, timespan)=(room, [\"2023-12-25 22:00:00+00\",\"2023-12-28 19:00:00+00\"]).",
        "Key (resource_id, timespan)=(room, [\"2023-12-26 22:00:00+00\",\"2023-12-30 19:00:00+00\"]) conflicts with existing key (resource_id, timespan)=(room, [\"2023-12-25 22:00:00+00\",\"2023-12-28 19:00:00+00\"}).",
    ] {
        assert_eq!(parse_conflict(detail), ReservationConflictInfo::Unparsed(detail.to_string()));
    }
}
