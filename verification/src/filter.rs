use vstd::prelude::*;
use std::collections::VecDeque;
use crate::error::Error;
use crate::manager::{is_id_filter_of, string_to_option};
use crate::reservation::Reservation;
use crate::status::{ReservationStatus, status_from_code};

verus! {

/// A paged listing of reservations, ordered by id.
#[derive(Debug, Clone, PartialEq, Eq)]
pub struct ReservationFilter {
    /// The user to match; empty matches every user.
    pub user_id: String,
    /// The resource to match; empty matches every resource.
    pub resource_id: String,
    /// Wire code of the status to match.
    pub status: i32,
    /// The id that the page starts from, if it is not the first page.
    pub cursor: Option<i64>,
    /// Highest ids first when set.
    pub desc: bool,
    /// Rows per page.
    pub page_size: i64,
}

/// Where a page sits among its neighbours.
#[derive(Debug, Clone, Copy, PartialEq, Eq)]
pub struct FilterPager {
    /// The id that starts the previous page, if there is one.
    pub prev: Option<i64>,
    /// The id that starts the next page, if there is one.
    pub next: Option<i64>,
    /// The number of matching rows, if counted.
    pub total: Option<i64>,
}

/// Smallest accepted page size.
pub const MIN_PAGE_SIZE: i64 = 10;

/// Largest accepted page size.
pub const MAX_PAGE_SIZE: i64 = 100;

/// What checking a filter reports: the page size must lie in
/// `MIN_PAGE_SIZE..=MAX_PAGE_SIZE`, a cursor must not be negative, and the
/// status code must name a status, checked in that order.
pub open spec fn filter_check(f: ReservationFilter) -> Result<(), Error> {
    if f.page_size < MIN_PAGE_SIZE || f.page_size > MAX_PAGE_SIZE {
        Err(Error::InvalidPageSize(f.page_size))
    } else if f.cursor matches Some(c) && c < 0 {
        Err(Error::InvalidCursor(f.cursor->Some_0))
    } else if status_from_code(f.status) is None {
        Err(Error::InvalidStatus(f.status))
    } else {
        Ok(())
    }
}

/// A filter for status `Unknown` (code 0) lists `Pending` ones (code 1).
pub open spec fn normalized_status(code: i32) -> i32 {
    if code == 0 {
        1
    } else {
        code
    }
}

/// The filter after normalizing: the same, with its status normalized.
pub open spec fn normalized(f: ReservationFilter) -> ReservationFilter {
    ReservationFilter { status: normalized_status(f.status), ..f }
}

/// How many rows a page fetches: the page, one more to learn whether a next
/// page exists, and the cursor row itself when there is a cursor.
pub open spec fn fetch_limit(f: ReservationFilter) -> int {
    f.page_size + 1 + if f.cursor is Some {
        1int
    } else {
        0int
    }
}

/// The rows after the cursor row: with a cursor the first fetched row is the
/// cursor row and is set aside.
pub open spec fn rows_after_prev(f: ReservationFilter, rows: Seq<Reservation>) -> Seq<Reservation> {
    if f.cursor is Some && rows.len() > 0 {
        rows.drop_first()
    } else {
        rows
    }
}

/// Whether more rows than a page remain after the cursor row (so that there
/// is an extra row to remove).
pub open spec fn has_next(f: ReservationFilter, rows: Seq<Reservation>) -> bool {
    &&& rows_after_prev(f, rows).len() > f.page_size
    &&& rows_after_prev(f, rows).len() > 0
}

/// The rows of the page: those after the cursor row, without the extra row
/// that shows a next page exists.
pub open spec fn page_rows(f: ReservationFilter, rows: Seq<Reservation>) -> Seq<Reservation> {
    if has_next(f, rows) {
        rows_after_prev(f, rows).drop_last()
    } else {
        rows_after_prev(f, rows)
    }
}

/// The pager of a page: `prev` is the id of the cursor row where one was set
/// aside, `next` the id of the extra row where one was removed.
pub open spec fn pager_of(f: ReservationFilter, rows: Seq<Reservation>) -> FilterPager {
    FilterPager {
        prev: if f.cursor is Some && rows.len() > 0 {
            Some(rows[0].id)
        } else {
            None
        },
        next: if has_next(f, rows) {
            Some(rows_after_prev(f, rows).last().id)
        } else {
            None
        },
        total: None,
    }
}

/// The listing statement's parameters.
pub struct FilterCommand {
    pub user_id: Option<String>,
    pub resource_id: Option<String>,
    pub status: ReservationStatus,
    pub cursor: Option<i64>,
    pub desc: bool,
    pub limit: i64,
}

impl FilterCommand {
    /// The order of the listing: `DESC` for highest ids first, `ASC` otherwise.
    pub fn order_keyword(&self) -> (r: &'static str)
        ensures
            r@ == (if self.desc {
                "DESC"@
            } else {
                "ASC"@
            }),
    {
        if self.desc {
            "DESC"
        } else {
            "ASC"
        }
    }

    /// How rows compare with the cursor: a page runs from the cursor in the
    /// listing's order, so ids `<=` the cursor when descending, `>=` otherwise.
    pub fn cursor_comparison(&self) -> (r: &'static str)
        ensures
            r@ == (if self.desc {
                "<="@
            } else {
                ">="@
            }),
    {
        if self.desc {
            "<="
        } else {
            ">="
        }
    }
}

impl ReservationFilter {
    /// Checks the filter (see `filter_check`); when it passes, lists
    /// `Pending` reservations in place of `Unknown` ones. A filter that fails
    /// is left as it was.
    pub fn normalize(&mut self) -> (r: Result<(), Error>)
        ensures
            r == filter_check(*old(self)),
            r is Ok ==> *final(self) == normalized(*old(self)),
            r is Ok ==> filter_check(*final(self)) is Ok,
            r is Err ==> *final(self) == *old(self),
            r is Ok && old(self).status != 0 ==> *final(self) == *old(self),
            r is Ok && old(self).status == 0 ==> *final(self) == (ReservationFilter {
                status: 1,
                ..*old(self)
            }),
    {
        if self.page_size < MIN_PAGE_SIZE || self.page_size > MAX_PAGE_SIZE {
            return Err(Error::InvalidPageSize(self.page_size));
        }
        if let Some(c) = self.cursor {
            if c < 0 {
                return Err(Error::InvalidCursor(c));
            }
        }
        if ReservationStatus::from_i32(self.status).is_none() {
            return Err(Error::InvalidStatus(self.status));
        }
        if self.status == 0 {
            self.status = 1;
        }
        Ok(())
    }

    /// Decides the parameters of the listing statement for a checked filter.
    pub fn plan(&self) -> (r: FilterCommand)
        requires
            filter_check(*self) is Ok,
        ensures
            is_id_filter_of(r.user_id, self.user_id),
            is_id_filter_of(r.resource_id, self.resource_id),
            Some(r.status) == status_from_code(self.status),
            r.cursor == self.cursor,
            r.desc == self.desc,
            r.limit == fetch_limit(*self),
    {
        let extra: i64 = if self.cursor.is_some() {
            1
        } else {
            0
        };
        FilterCommand {
            user_id: string_to_option(&self.user_id),
            resource_id: string_to_option(&self.resource_id),
            status: ReservationStatus::from_i32(self.status).unwrap(),
            cursor: self.cursor,
            desc: self.desc,
            limit: self.page_size + 1 + extra,
        }
    }

    /// Cuts the fetched rows down to the page and tells where the
    /// neighbouring pages start (see `pager_of` and `page_rows`).
    pub fn get_pager(&self, data: &mut VecDeque<Reservation>) -> (r: FilterPager)
        ensures
            r == pager_of(*self, old(data)@),
            final(data)@ == page_rows(*self, old(data)@),
    {
        let ghost rows = data@;
        let has_prev = self.cursor.is_some();
        let start = if has_prev {
            data.pop_front()
        } else {
            None
        };
        assert(data@ == rows_after_prev(*self, rows));
        let more = if self.page_size < 0 {
            true
        } else {
            (data.len() as u64) > (self.page_size as u64)
        };
        assert((more && data@.len() > 0) == has_next(*self, rows));
        let end = if more {
            data.pop_back()
        } else {
            None
        };
        assert(data@ =~= page_rows(*self, rows));
        FilterPager {
            prev: match start {
                Some(r) => Some(r.id),
                None => None,
            },
            next: match end {
                Some(r) => Some(r.id),
                None => None,
            },
            total: None,
        }
    }
}

/// Normalizing is idempotent, and a filter that passes the check still
/// passes it once normalized.
pub proof fn lemma_normalize_idempotent(f: ReservationFilter)
    ensures
        normalized(normalized(f)) == normalized(f),
        filter_check(f) is Ok ==> filter_check(normalized(f)) is Ok,
{
}

/// When the database returns at most the rows that the plan asks for, the
/// page holds at most `page_size` rows, it is the run of fetched rows that
/// follows the cursor row, and a next page is reported exactly when the
/// database returned all the rows asked for.
pub proof fn lemma_page_within_limit(f: ReservationFilter, rows: Seq<Reservation>)
    requires
        filter_check(f) is Ok,
        rows.len() <= fetch_limit(f),
    ensures
        page_rows(f, rows).len() <= f.page_size,
        ({
            let skip: int = if pager_of(f, rows).prev is Some {
                1
            } else {
                0
            };
            page_rows(f, rows) == rows.subrange(skip, skip + page_rows(f, rows).len())
        }),
        pager_of(f, rows).next is Some <==> rows.len() == fetch_limit(f),
        pager_of(f, rows).prev is Some <==> (f.cursor is Some && rows.len() > 0),
{
    let skip: int = if pager_of(f, rows).prev is Some {
        1
    } else {
        0
    };
    assert(page_rows(f, rows) =~= rows.subrange(skip, skip + page_rows(f, rows).len()));
}

/// Normalizing changes nothing but an Unknown status (code 0), which becomes
/// Pending (code 1): a filter for any other status keeps it, and every other
/// field is kept.
pub proof fn lemma_normalize_only_unknown_becomes_pending(f: ReservationFilter)
    ensures
        f.status != 0 ==> normalized(f) == f,
        f.status == 0 ==> normalized(f).status == 1,
        normalized(f).user_id == f.user_id,
        normalized(f).resource_id == f.resource_id,
        normalized(f).cursor == f.cursor,
        normalized(f).desc == f.desc,
        normalized(f).page_size == f.page_size,
{
}

} // verus!
