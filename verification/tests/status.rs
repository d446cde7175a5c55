use reservation::{ReservationStatus, RsvpStatus};

#[test]
fn rsvp_status_converts_to_same_named_status() {
    assert_eq!(ReservationStatus::from(RsvpStatus::Pending), ReservationStatus::Pending);
    assert_eq!(ReservationStatus::from(RsvpStatus::Blocked), ReservationStatus::Blocked);
    assert_eq!(ReservationStatus::from(RsvpStatus::Confirmed), ReservationStatus::Confirmed);
    assert_eq!(ReservationStatus::from(RsvpStatus::Unknown), ReservationStatus::Unknown);
}

#[test]
fn status_names_are_lower_case() {
    assert_eq!(ReservationStatus::Pending.to_string(), "pending");
    assert_eq!(ReservationStatus::Blocked.to_string(), "blocked");
    assert_eq!(ReservationStatus::Confirmed.to_string(), "confirmed");
    assert_eq!(ReservationStatus::Unknown.to_string(), "unknown");
}

#[test]
fn status_codes_round_trip() {
    let all = [
        ReservationStatus::Unknown,
        ReservationStatus::Pending,
        ReservationStatus::Confirmed,
        ReservationStatus::Blocked,
    ];
    for (i, s) in all.iter().enumerate() {
        assert_eq!(s.code(), i as i32);
        assert_eq!(*s as i32, i as i32);
        assert_eq!(ReservationStatus::from_i32(s.code()), Some(*s));
    }
    assert_eq!(ReservationStatus::from_i32(4), None);
    assert_eq!(ReservationStatus::from_i32(-1), None);
}

#[test]
fn unknown_code_defaults_to_pending() {
    assert_eq!(ReservationStatus::from_i32_or_pending(7), ReservationStatus::Pending);
    assert_eq!(ReservationStatus::from_i32_or_pending(3), ReservationStatus::Blocked);
    assert_eq!(ReservationStatus::from_i32_or_pending(0), ReservationStatus::Unknown);
}
