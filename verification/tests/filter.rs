use std::collections::VecDeque;

use reservation::{Error, Reservation, ReservationFilter, ReservationStatus, Timestamp};

fn filter(cursor: Option<i64>, page_size: i64, status: i32) -> ReservationFilter {
    ReservationFilter {
        user_id: "aliceid".to_string(),
        resource_id: String::new(),
        status,
        cursor,
        desc: false,
        page_size,
    }
}

fn rows(ids: std::ops::RangeInclusive<i64>) -> VecDeque<Reservation> {
    ids.map(|id| {
        let mut r = Reservation::new_pending(
            "aliceid",
            "room",
            Timestamp { seconds: 1, nanos: 0 },
            Timestamp { seconds: 2, nanos: 0 },
            "",
        );
        r.id = id;
        r
    })
    .collect()
}

#[test]
fn single_row_first_page_has_no_neighbours() {
    let mut f = filter(None, 10, ReservationStatus::Pending as i32);
    assert_eq!(f.normalize(), Ok(()));
    let mut data = rows(1..=1);
    let pager = f.get_pager(&mut data);
    assert_eq!(pager.prev, None);
    assert_eq!(pager.next, None);
    assert_eq!(pager.total, None);
    assert_eq!(data.len(), 1);
    assert_eq!(data[0].id, 1);
}

#[test]
fn full_first_page_reports_next() {
    let f = filter(None, 10, 1);
    assert_eq!(f.plan().limit, 11);
    let mut data = rows(1..=11);
    let pager = f.get_pager(&mut data);
    assert_eq!(pager.prev, None);
    assert_eq!(pager.next, Some(11));
    assert_eq!(data.len(), 10);
    assert_eq!(data.front().unwrap().id, 1);
    assert_eq!(data.back().unwrap().id, 10);
}

#[test]
fn middle_page_reports_both_neighbours() {
    let f = filter(Some(11), 10, 1);
    assert_eq!(f.plan().limit, 12);
    let mut data = rows(11..=22);
    let pager = f.get_pager(&mut data);
    assert_eq!(pager.prev, Some(11));
    assert_eq!(pager.next, Some(22));
    assert_eq!(data.len(), 10);
    assert_eq!(data.front().unwrap().id, 12);
    assert_eq!(data.back().unwrap().id, 21);
}

#[test]
fn last_page_reports_only_prev() {
    let f = filter(Some(21), 10, 1);
    let mut data = rows(21..=25);
    let pager = f.get_pager(&mut data);
    assert_eq!(pager.prev, Some(21));
    assert_eq!(pager.next, None);
    assert_eq!(data.len(), 4);
    let mut empty = VecDeque::new();
    let pager = f.get_pager(&mut empty);
    assert_eq!(pager.prev, None);
    assert_eq!(pager.next, None);
}

#[test]
fn normalize_checks_page_size_cursor_and_status() {
    let mut f = filter(None, 9, 1);
    assert_eq!(f.normalize(), Err(Error::InvalidPageSize(9)));
    let mut f = filter(None, 101, 1);
    assert_eq!(f.normalize(), Err(Error::InvalidPageSize(101)));
    let mut f = filter(Some(-1), 10, 1);
    assert_eq!(f.normalize(), Err(Error::InvalidCursor(-1)));
    let mut f = filter(None, 100, 9);
    assert_eq!(f.normalize(), Err(Error::InvalidStatus(9)));
    assert_eq!(f.status, 9);
}

#[test]
fn normalize_lists_pending_for_unknown_and_is_idempotent() {
    let mut f = filter(Some(0), 10, ReservationStatus::Unknown as i32);
    assert_eq!(f.normalize(), Ok(()));
    assert_eq!(f.status, ReservationStatus::Pending as i32);
    let once = f.clone();
    assert_eq!(f.normalize(), Ok(()));
    assert_eq!(f, once);
    let cmd = f.plan();
    assert_eq!(cmd.status, ReservationStatus::Pending);
    assert_eq!(cmd.user_id, Some("aliceid".to_string()));
    assert_eq!(cmd.resource_id, None);
    assert_eq!(cmd.cursor, Some(0));
}

#[test]
fn listing_order_follows_desc() {
    let mut f = filter(Some(5), 10, 1);
    let cmd = f.plan();
    assert_eq!(cmd.order_keyword(), "ASC");
    assert_eq!(cmd.cursor_comparison(), ">=");
    f.desc = true;
    let cmd = f.plan();
    assert_eq!(cmd.order_keyword(), "DESC");
    assert_eq!(cmd.cursor_comparison(), "<=");
}
