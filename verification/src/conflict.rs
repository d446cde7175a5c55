use vstd::prelude::*;
use chrono::DateTime;
use crate::time::Timestamp;

verus! {

/// A reservation window named in a conflict report.
#[derive(Debug, Clone, PartialEq, Eq)]
pub struct ReservationWindow {
    pub rid: String,
    pub start: Timestamp,
    pub end: Timestamp,
}

/// The two overlapping windows of a refused reservation: the one asked for
/// and the one already stored.
#[derive(Debug, Clone, PartialEq, Eq)]
pub struct ReservationConflict {
    pub new: ReservationWindow,
    pub old: ReservationWindow,
}

/// What a conflict report says: the two windows where it could be read, the
/// report itself otherwise.
#[derive(Debug, Clone, PartialEq, Eq)]
pub enum ReservationConflictInfo {
    Parsed(ReservationConflict),
    Unparsed(String),
}

/// The characters a resource id in a conflict report may hold: ASCII letters
/// and digits, `_` and `-`.
pub open spec fn is_ident_char(c: char) -> bool {
    let v = c as u32;
    (97 <= v <= 122) || (65 <= v <= 90) || (48 <= v <= 57) || v == 95 || v == 45
}

/// A non-empty run of resource-id characters.
pub open spec fn is_resource_id_text(rid: Seq<char>) -> bool {
    &&& rid.len() > 0
    &&& forall|i: int| 0 <= i < rid.len() ==> is_ident_char(#[trigger] rid[i])
}

/// A quoted time holds no quote.
pub open spec fn is_time_text(t: Seq<char>) -> bool {
    forall|i: int| 0 <= i < t.len() ==> #[trigger] t[i] != '"'
}

/// The printed pieces of a window: resource id, start time, end time, and the
/// brackets that open and close the time range.
pub type WindowPieces = (Seq<char>, Seq<char>, Seq<char>, char, char);

/// How Postgres prints the key of the reservations' exclusion constraint for
/// one row: `(resource_id, timespan)=(<rid>, <lo>"<start>","<end>"<hi>)`,
/// where the range opens with `[` (start included) or `(` and closes with
/// `]` (end included) or `)`.
pub open spec fn window_text(w: WindowPieces) -> Seq<char> {
    "(resource_id, timespan)=("@ + w.0 + ", "@ + seq![w.3] + "\""@ + w.1 + "\",\""@ + w.2 + "\""@
        + seq![w.4] + ")"@
}

/// A bracket that opens a range.
pub open spec fn is_lower_bracket(c: char) -> bool {
    c == '[' || c == '('
}

/// A bracket that closes a range.
pub open spec fn is_upper_bracket(c: char) -> bool {
    c == ']' || c == ')'
}

/// Whether the pieces of a printed window are well formed.
pub open spec fn window_text_ok(w: WindowPieces) -> bool {
    &&& is_resource_id_text(w.0)
    &&& is_time_text(w.1)
    &&& is_time_text(w.2)
    &&& is_lower_bracket(w.3)
    &&& is_upper_bracket(w.4)
}

/// The detail of the exclusion violation that Postgres reports when a new
/// reservation overlaps a stored one.
pub open spec fn conflict_text(
    new: WindowPieces,
    old: WindowPieces,
) -> Seq<char> {
    "Key "@ + window_text(new) + " conflicts with existing key "@ + window_text(old) + "."@
}

/// Whether `text` is a conflict report of these two printed windows.
pub open spec fn is_conflict_report(
    text: Seq<char>,
    new: WindowPieces,
    old: WindowPieces,
) -> bool {
    &&& window_text_ok(new)
    &&& window_text_ok(old)
    &&& text == conflict_text(new, old)
}

/// What chrono's `DateTime::parse_from_str(text, "%Y-%m-%d %H:%M:%S%#z")`
/// gives for a printed time, as seconds and nanoseconds since the UNIX epoch.
pub uninterp spec fn pg_timestamp(text: Seq<char>) -> Option<Timestamp>;

/// Calls chrono's `DateTime::parse_from_str(text, "%Y-%m-%d %H:%M:%S%#z")` and
/// reads the instant back with `timestamp()` and `timestamp_subsec_nanos()`.
/// Trusted: the result is `pg_timestamp(text@)`; nothing more is claimed of it.
#[verifier::external_body]
fn parse_pg_timestamp(text: &str) -> (r: Option<Timestamp>)
    ensures
        r == pg_timestamp(text@),
{
    match DateTime::parse_from_str(text, "%Y-%m-%d %H:%M:%S%#z") {
        Ok(d) => Some(Timestamp { seconds: d.timestamp(), nanos: d.timestamp_subsec_nanos() as i32 }),
        Err(_) => None,
    }
}

/// Both times of a printed window can be read.
pub open spec fn window_times_parse(w: WindowPieces) -> bool {
    pg_timestamp(w.1) is Some && pg_timestamp(w.2) is Some
}

/// A window read from its printed pieces.
pub open spec fn is_window_of(win: ReservationWindow, w: WindowPieces) -> bool {
    &&& win.rid@ == w.0
    &&& pg_timestamp(w.1) == Some(win.start)
    &&& pg_timestamp(w.2) == Some(win.end)
}

/// What reading a report gives: the two windows when the text is a conflict
/// report whose times can be read, the text itself otherwise.
pub open spec fn is_conflict_info_of(info: ReservationConflictInfo, text: Seq<char>) -> bool {
    match info {
        ReservationConflictInfo::Parsed(c) => exists|
            n: WindowPieces,
            o: WindowPieces,
        |
            #![trigger is_conflict_report(text, n, o)]
            is_conflict_report(text, n, o) && window_times_parse(n) && window_times_parse(o)
                && is_window_of(c.new, n) && is_window_of(c.old, o),
        ReservationConflictInfo::Unparsed(t) => {
            &&& t@ == text
            &&& forall|
                n: WindowPieces,
                o: WindowPieces,
            |
                #![trigger is_conflict_report(text, n, o)]
                is_conflict_report(text, n, o) ==> !(window_times_parse(n) && window_times_parse(o))
        },
    }
}

/// Where the pieces of a printed window sit in a text that holds it at `base`:
/// the resource id, then a comma, the opening bracket, the start time, a quote,
/// the end time, a quote, the closing bracket.
pub open spec fn window_at(text: Seq<char>, base: int, w: WindowPieces) -> bool {
    let l0 = w.0.len() as int;
    let l1 = w.1.len() as int;
    let l2 = w.2.len() as int;
    &&& forall|i: int| base + 25 <= i < base + 25 + l0 ==> #[trigger] text[i] == w.0[i - base - 25]
    &&& text[base + 25 + l0] == ','
    &&& text[base + 27 + l0] == w.3
    &&& forall|i: int|
        base + 29 + l0 <= i < base + 29 + l0 + l1 ==> #[trigger] text[i] == w.1[i - base - 29 - l0]
    &&& text[base + 29 + l0 + l1] == '"'
    &&& forall|i: int|
        base + 32 + l0 + l1 <= i < base + 32 + l0 + l1 + l2 ==> #[trigger] text[i] == w.2[i - base
            - 32 - l0 - l1]
    &&& text[base + 32 + l0 + l1 + l2] == '"'
    &&& text[base + 33 + l0 + l1 + l2] == w.4
}

/// The length of the printed pieces of a window.
pub open spec fn pieces_len(w: WindowPieces) -> int {
    (w.0.len() + w.1.len() + w.2.len()) as int
}

/// Where the windows sit in a conflict report: the new one at 4, the stored
/// one 64 characters after the new one's pieces end.
proof fn lemma_report_layout(
    text: Seq<char>,
    n: WindowPieces,
    o: WindowPieces,
)
    requires
        text == conflict_text(n, o),
    ensures
        text.len() == 104 + pieces_len(n) + pieces_len(o),
        window_at(text, 4, n),
        window_at(text, 68 + pieces_len(n), o),
{
    reveal_strlit("Key ");
    reveal_strlit(" conflicts with existing key ");
    reveal_strlit(".");
    let wn = window_text(n);
    let wo = window_text(o);
    let ln: int = wn.len() as int;
    let lo: int = wo.len() as int;
    lemma_window_text_len(n);
    lemma_window_text_len(o);
    assert(text.subrange(4, 4 + ln) =~= wn);
    assert(text.subrange(33 + ln, 33 + ln + lo) =~= wo);
    lemma_window_layout(text, 4, n);
    lemma_window_layout(text, 33 + ln, o);
}

proof fn lemma_window_text_len(w: WindowPieces)
    ensures
        window_text(w).len() == 35 + pieces_len(w),
{
    reveal_strlit("(resource_id, timespan)=(");
    reveal_strlit(", ");
    reveal_strlit("\"");
    reveal_strlit("\",\"");
    reveal_strlit(")");
}

proof fn lemma_window_layout(text: Seq<char>, base: int, w: WindowPieces)
    requires
        0 <= base,
        base + window_text(w).len() <= text.len(),
        text.subrange(base, base + window_text(w).len()) == window_text(w),
    ensures
        window_text(w).len() == 35 + w.0.len() + w.1.len() + w.2.len(),
        window_at(text, base, w),
{
    reveal_strlit("(resource_id, timespan)=(");
    reveal_strlit(", ");
    reveal_strlit("\"");
    reveal_strlit("\",\"");
    reveal_strlit(")");
    let wt = window_text(w);
    let l0: int = w.0.len() as int;
    let l1: int = w.1.len() as int;
    let l2: int = w.2.len() as int;
    assert forall|i: int| 0 <= i < wt.len() implies text[base + i] == #[trigger] wt[i] by {
        assert(text.subrange(base, base + wt.len())[i] == text[base + i]);
    }
    assert(wt[25 + l0] == ',');
    assert(text[base + 25 + l0] == wt[25 + l0]);
    assert(wt[29 + l0 + l1] == '"');
    assert(text[base + 29 + l0 + l1] == wt[29 + l0 + l1]);
    assert(wt[32 + l0 + l1 + l2] == '"');
    assert(text[base + 32 + l0 + l1 + l2] == wt[32 + l0 + l1 + l2]);
    assert(wt[27 + l0] == w.3);
    assert(text[base + 27 + l0] == wt[27 + l0]);
    assert(wt[33 + l0 + l1 + l2] == w.4);
    assert(text[base + 33 + l0 + l1 + l2] == wt[33 + l0 + l1 + l2]);
    assert forall|i: int| base + 25 <= i < base + 25 + l0 implies #[trigger] text[i] == w.0[i - base
        - 25] by {
        assert(text[base + (i - base)] == wt[i - base]);
    }
    assert forall|i: int| base + 29 + l0 <= i < base + 29 + l0 + l1 implies #[trigger] text[i]
        == w.1[i - base - 29 - l0] by {
        assert(text[base + (i - base)] == wt[i - base]);
    }
    assert forall|i: int| base + 32 + l0 + l1 <= i < base + 32 + l0 + l1 + l2 implies #[trigger] text[i]
        == w.2[i - base - 32 - l0 - l1] by {
        assert(text[base + (i - base)] == wt[i - base]);
    }
}

/// The pieces of a printed window at `base` are fixed by the text: a second
/// well-formed window at the same place has the same pieces.
proof fn lemma_window_at_unique(
    text: Seq<char>,
    base: int,
    w1: WindowPieces,
    w2: WindowPieces,
)
    requires
        window_text_ok(w1),
        window_text_ok(w2),
        window_at(text, base, w1),
        window_at(text, base, w2),
    ensures
        w1 == w2,
{
    assert(!is_ident_char(','));
    let a: int = w1.0.len() as int;
    let b: int = w2.0.len() as int;
    if a < b {
        assert(text[base + 25 + a] == w2.0[a]);
    } else if b < a {
        assert(text[base + 25 + b] == w1.0[b]);
    }
    assert(w1.0 =~= w2.0) by {
        assert forall|i: int| 0 <= i < a implies w1.0[i] == w2.0[i] by {
            assert(text[base + 25 + i] == w1.0[i]);
        }
    }
    let c: int = w1.1.len() as int;
    let d: int = w2.1.len() as int;
    if c < d {
        assert(text[base + 29 + a + c] == w2.1[c]);
    } else if d < c {
        assert(text[base + 29 + a + d] == w1.1[d]);
    }
    assert(w1.1 =~= w2.1) by {
        assert forall|i: int| 0 <= i < c implies w1.1[i] == w2.1[i] by {
            assert(text[base + 29 + a + i] == w1.1[i]);
        }
    }
    let e: int = w1.2.len() as int;
    let f: int = w2.2.len() as int;
    if e < f {
        assert(text[base + 32 + a + c + e] == w2.2[e]);
    } else if f < e {
        assert(text[base + 32 + a + c + f] == w1.2[f]);
    }
    assert(w1.2 =~= w2.2) by {
        assert forall|i: int| 0 <= i < e implies w1.2[i] == w2.2[i] by {
            assert(text[base + 32 + a + c + i] == w1.2[i]);
        }
    }
    assert(w1.3 == w2.3);
    assert(w1.4 == w2.4);
}

/// A text is a conflict report of at most one pair of windows.
pub proof fn lemma_conflict_report_unique(
    text: Seq<char>,
    n1: WindowPieces,
    o1: WindowPieces,
    n2: WindowPieces,
    o2: WindowPieces,
)
    requires
        is_conflict_report(text, n1, o1),
        is_conflict_report(text, n2, o2),
    ensures
        n1 == n2,
        o1 == o2,
{
    lemma_report_layout(text, n1, o1);
    lemma_report_layout(text, n2, o2);
    lemma_window_at_unique(text, 4, n1, n2);
    lemma_window_at_unique(text, 68 + pieces_len(n1), o1, o2);
}

/// `r` is the first index at or after `from` that holds `c`, or `None` where
/// there is none.
pub open spec fn first_from(text: Seq<char>, from: int, c: char, r: Option<usize>) -> bool {
    match r {
        Some(k) => {
            &&& from <= k < text.len()
            &&& text[k as int] == c
            &&& forall|i: int| from <= i < k ==> #[trigger] text[i] != c
        },
        None => forall|i: int| from <= i < text.len() ==> #[trigger] text[i] != c,
    }
}

/// The first index is the expected one when that index holds `c` and none
/// before it does.
proof fn lemma_first_is(text: Seq<char>, from: int, c: char, r: Option<usize>, e: int)
    requires
        first_from(text, from, c, r),
        from <= e < text.len(),
        text[e] == c,
        forall|i: int| from <= i < e ==> #[trigger] text[i] != c,
    ensures
        r == Some(e as usize),
{
    match r {
        Some(k) => {
            if k < e {
                assert(text[k as int] != c);
            } else if k > e {
                assert(text[e] != c);
            }
        },
        None => {
            assert(text[e] != c);
        },
    }
}

/// A run of a report's text without a character reads as a quoted time.
proof fn lemma_run_without_quote(text: Seq<char>, a: int, b: int)
    requires
        0 <= a <= b <= text.len(),
        forall|i: int| a <= i < b ==> #[trigger] text[i] != '"',
    ensures
        is_time_text(text.subrange(a, b)),
{
    assert forall|i: int| 0 <= i < b - a implies #[trigger] text.subrange(a, b)[i] != '"' by {
        assert(text.subrange(a, b)[i] == text[a + i]);
    }
}

/// Where each piece of a window ends, and what precedes it.
pub open spec fn window_scan(text: Seq<char>, base: int, w: WindowPieces) -> bool {
    let e0 = base + 25 + w.0.len();
    let e1 = e0 + 4 + w.1.len();
    let e2 = e1 + 3 + w.2.len();
    &&& e2 + 1 < text.len()
    &&& text[e0] == ','
    &&& text[e0 + 2] == w.3
    &&& text[e2 + 1] == w.4
    &&& forall|i: int| base + 25 <= i < e0 ==> #[trigger] text[i] != ','
    &&& text.subrange(base + 25, e0) == w.0
    &&& text[e1] == '"'
    &&& forall|i: int| e0 + 4 <= i < e1 ==> #[trigger] text[i] != '"'
    &&& text.subrange(e0 + 4, e1) == w.1
    &&& text[e2] == '"'
    &&& forall|i: int| e1 + 3 <= i < e2 ==> #[trigger] text[i] != '"'
    &&& text.subrange(e1 + 3, e2) == w.2
}

proof fn lemma_window_scan(text: Seq<char>, base: int, w: WindowPieces)
    requires
        0 <= base,
        window_text_ok(w),
        window_at(text, base, w),
        base + 35 + pieces_len(w) <= text.len(),
    ensures
        window_scan(text, base, w),
{
    assert(!is_ident_char(','));
    let l0: int = w.0.len() as int;
    let l1: int = w.1.len() as int;
    let l2: int = w.2.len() as int;
    assert forall|i: int| base + 25 <= i < base + 25 + l0 implies #[trigger] text[i] != ',' by {
        assert(text[i] == w.0[i - base - 25]);
    }
    assert(text.subrange(base + 25, base + 25 + l0) =~= w.0);
    assert forall|i: int| base + 29 + l0 <= i < base + 29 + l0 + l1 implies #[trigger] text[i] != '"' by {
        assert(text[i] == w.1[i - base - 29 - l0]);
    }
    assert(text.subrange(base + 29 + l0, base + 29 + l0 + l1) =~= w.1);
    assert forall|i: int|
        base + 32 + l0 + l1 <= i < base + 32 + l0 + l1 + l2 implies #[trigger] text[i] != '"' by {
        assert(text[i] == w.2[i - base - 32 - l0 - l1]);
    }
    assert(text.subrange(base + 32 + l0 + l1, base + 32 + l0 + l1 + l2) =~= w.2);
}

/// The scan facts of both windows of a conflict report.
proof fn lemma_report_scan(
    text: Seq<char>,
    n: WindowPieces,
    o: WindowPieces,
)
    requires
        is_conflict_report(text, n, o),
    ensures
        text.len() == 104 + pieces_len(n) + pieces_len(o),
        window_scan(text, 4, n),
        window_scan(text, 68 + pieces_len(n), o),
{
    lemma_report_layout(text, n, o);
    lemma_window_scan(text, 4, n);
    lemma_window_scan(text, 68 + pieces_len(n), o);
}

/// The first index at or after `from` that holds `c`.
fn find_char(s: &str, len: usize, from: usize, c: char) -> (r: Option<usize>)
    requires
        len == s@.len(),
    ensures
        first_from(s@, from as int, c, r),
{
    let mut i = from;
    while i < len
        invariant
            len == s@.len(),
            from <= i,
            forall|j: int| from <= j < i ==> #[trigger] s@[j] != c,
        decreases len - i,
    {
        if s.get_char(i) == c {
            return Some(i);
        }
        i = i + 1;
    }
    None
}

fn is_ident(c: char) -> (r: bool)
    ensures
        r == is_ident_char(c),
{
    let v = c as u32;
    (97 <= v && v <= 122) || (65 <= v && v <= 90) || (48 <= v && v <= 57) || v == 95 || v == 45
}

fn is_resource_id(t: &str) -> (r: bool)
    ensures
        r == is_resource_id_text(t@),
{
    let len = t.unicode_len();
    if len == 0 {
        return false;
    }
    let mut i: usize = 0;
    while i < len
        invariant
            len == t@.len(),
            i <= len,
            forall|j: int| 0 <= j < i ==> is_ident_char(#[trigger] t@[j]),
        decreases len - i,
    {
        if !is_ident(t.get_char(i)) {
            return false;
        }
        i = i + 1;
    }
    true
}

fn render_window(rid: &str, start: &str, end: &str, lower: char, upper: char) -> (r: String)
    requires
        is_lower_bracket(lower),
        is_upper_bracket(upper),
    ensures
        r@ == window_text((rid@, start@, end@, lower, upper)),
{
    proof {
        reveal_strlit("[");
        reveal_strlit("(");
        reveal_strlit("]");
        reveal_strlit(")");
        reveal_strlit("\"");
        reveal_strlit("\"[");
        reveal_strlit("\"(");
        reveal_strlit("\"]");
        reveal_strlit("\")");
    }
    let mut r = String::from_str("(resource_id, timespan)=(");
    r.append(rid);
    r.append(", ");
    let ghost before = r@;
    if lower == '[' {
        r.append("[");
    } else {
        r.append("(");
    }
    assert(r@ == before + seq![lower]);
    r.append("\"");
    r.append(start);
    r.append("\",\"");
    r.append(end);
    r.append("\"");
    let ghost before_upper = r@;
    if upper == ']' {
        r.append("]");
    } else {
        r.append(")");
    }
    assert(r@ == before_upper + seq![upper]);
    r.append(")");
    r
}

/// The pieces of a window that `scan_report` hands out.
pub open spec fn pieces_of(p: (&str, &str, &str, char, char)) -> WindowPieces {
    (p.0@, p.1@, p.2@, p.3, p.4)
}

fn render_report(n: (&str, &str, &str, char, char), o: (&str, &str, &str, char, char)) -> (r: String)
    requires
        is_lower_bracket(n.3) && is_upper_bracket(n.4),
        is_lower_bracket(o.3) && is_upper_bracket(o.4),
    ensures
        r@ == conflict_text(pieces_of(n), pieces_of(o)),
{
    let mut rendered = String::from_str("Key ");
    let new_window = render_window(n.0, n.1, n.2, n.3, n.4);
    let old_window = render_window(o.0, o.1, o.2, o.3, o.4);
    rendered.append(new_window.as_str());
    rendered.append(" conflicts with existing key ");
    rendered.append(old_window.as_str());
    rendered.append(".");
    rendered
}

/// A window's scan positions (the ends of the resource id, the start time and
/// the end time) as a printed window at `base` puts them.
pub open spec fn scan_positions(base: int, w: WindowPieces) -> (usize, usize, usize) {
    (
        (base + 25 + w.0.len()) as usize,
        (base + 29 + w.0.len() + w.1.len()) as usize,
        (base + 32 + pieces_len(w)) as usize,
    )
}

/// Finding the ends of a printed window's pieces gives the window's positions.
proof fn lemma_scan_finds_window(
    text: Seq<char>,
    base: int,
    w: WindowPieces,
    r0: Option<usize>,
    r1: Option<usize>,
    r2: Option<usize>,
)
    requires
        window_scan(text, base, w),
        first_from(text, base + 25, ',', r0),
        r0 matches Some(e0) ==> text.len() - e0 >= 4 ==> first_from(text, e0 + 4, '"', r1),
        r1 matches Some(e1) ==> text.len() - e1 >= 3 ==> first_from(text, e1 + 3, '"', r2),
    ensures
        r0 == Some(scan_positions(base, w).0),
        r1 == Some(scan_positions(base, w).1),
        r2 == Some(scan_positions(base, w).2),
{
    lemma_first_is(text, base + 25, ',', r0, base + 25 + w.0.len());
    lemma_first_is(text, base + 29 + w.0.len(), '"', r1, base + 29 + w.0.len() + w.1.len());
    lemma_first_is(text, base + 32 + w.0.len() + w.1.len(), '"', r2, base + 32 + pieces_len(w));
}

/// The ends of the pieces of a window that starts at `base`: of the resource
/// id, of the start time and of the end time.
fn scan_window(s: &str, len: usize, base: usize) -> (r: Option<(usize, usize, usize)>)
    requires
        len == s@.len(),
        base + 25 <= len,
    ensures
        r matches Some(e) ==> {
            &&& base + 25 <= e.0 && e.0 + 4 <= e.1 && e.1 + 3 <= e.2 < len
            &&& forall|i: int| e.0 + 4 <= i < e.1 ==> #[trigger] s@[i] != '"'
            &&& forall|i: int| e.1 + 3 <= i < e.2 ==> #[trigger] s@[i] != '"'
        },
        forall|w: WindowPieces|
            #![trigger window_scan(s@, base as int, w)]
            window_scan(s@, base as int, w) ==> r == Some(scan_positions(base as int, w)),
{
    let r0 = find_char(s, len, base + 25, ',');
    let r1 = match r0 {
        Some(e0) if len - e0 >= 4 => find_char(s, len, e0 + 4, '"'),
        _ => None,
    };
    let r2 = match r1 {
        Some(e1) if len - e1 >= 3 => find_char(s, len, e1 + 3, '"'),
        _ => None,
    };
    proof {
        assert forall|w: WindowPieces|
            #![trigger window_scan(s@, base as int, w)]
            window_scan(s@, base as int, w) implies r0 == Some(scan_positions(base as int, w).0)
            && r1 == Some(scan_positions(base as int, w).1) && r2 == Some(
            scan_positions(base as int, w).2,
        ) by {
            lemma_scan_finds_window(s@, base as int, w, r0, r1, r2);
        }
    }
    match (r0, r1, r2) {
        (Some(e0), Some(e1), Some(e2)) => Some((e0, e1, e2)),
        _ => None,
    }
}

/// The pieces of a report's windows, read at the positions that scanning finds.
proof fn lemma_report_pieces(text: Seq<char>, n: WindowPieces, o: WindowPieces)
    requires
        is_conflict_report(text, n, o),
        text.len() <= usize::MAX,
    ensures
        ({
            let e = scan_positions(4, n);
            let f = scan_positions(68 + pieces_len(n), o);
            &&& text.len() == f.2 + 4
            &&& e.2 + 32 == 68 + pieces_len(n)
            &&& n == (
                text.subrange(29, e.0 as int),
                text.subrange(e.0 + 4, e.1 as int),
                text.subrange(e.1 + 3, e.2 as int),
                text[e.0 + 2],
                text[e.2 + 1],
            )
            &&& o == (
                text.subrange(e.2 + 57, f.0 as int),
                text.subrange(f.0 + 4, f.1 as int),
                text.subrange(f.1 + 3, f.2 as int),
                text[f.0 + 2],
                text[f.2 + 1],
            )
        }),
{
    lemma_report_scan(text, n, o);
    let e = scan_positions(4, n);
    let f = scan_positions(68 + pieces_len(n), o);
    assert(e.0 == 29 + n.0.len());
    assert(e.1 == 33 + n.0.len() + n.1.len());
    assert(e.2 == 36 + pieces_len(n));
    assert(f.0 == 93 + pieces_len(n) + o.0.len());
    assert(f.1 == 97 + pieces_len(n) + o.0.len() + o.1.len());
    assert(f.2 == 100 + pieces_len(n) + pieces_len(o));
}

/// The positions of the pieces of both windows of a conflict report.
#[verifier::rlimit(40)]
fn scan_report_positions(s: &str, len: usize) -> (r: Option<((usize, usize, usize), (usize, usize, usize))>)
    requires
        len == s@.len(),
    ensures
        r matches Some((e, f)) ==> {
            &&& 29 <= e.0 && e.0 + 4 <= e.1 && e.1 + 3 <= e.2 && e.2 + 57 <= f.0
            &&& f.0 + 4 <= f.1 && f.1 + 3 <= f.2 && f.2 + 1 < len
            &&& forall|i: int| e.0 + 4 <= i < e.1 ==> #[trigger] s@[i] != '"'
            &&& forall|i: int| e.1 + 3 <= i < e.2 ==> #[trigger] s@[i] != '"'
            &&& forall|i: int| f.0 + 4 <= i < f.1 ==> #[trigger] s@[i] != '"'
            &&& forall|i: int| f.1 + 3 <= i < f.2 ==> #[trigger] s@[i] != '"'
        },
        forall|n: WindowPieces, o: WindowPieces|
            #![trigger is_conflict_report(s@, n, o)]
            is_conflict_report(s@, n, o) ==> r == Some(
                (scan_positions(4, n), scan_positions(68 + pieces_len(n), o)),
            ),
{
    let w1 = if len >= 29 {
        scan_window(s, len, 4)
    } else {
        None
    };
    let w2 = match w1 {
        Some((_, _, e2)) if len - e2 >= 57 => scan_window(s, len, e2 + 32),
        _ => None,
    };
    proof {
        assert forall|n: WindowPieces, o: WindowPieces|
            #![trigger is_conflict_report(s@, n, o)]
            is_conflict_report(s@, n, o) implies w1 == Some(scan_positions(4, n)) && w2 == Some(
            scan_positions(68 + pieces_len(n), o),
        ) && len - w2->Some_0.2 >= 4 by {
            lemma_report_scan(s@, n, o);
        }
    }
    match (w1, w2) {
        (Some(e), Some(f)) => {
            if len - f.2 < 2 {
                None
            } else {
                Some((e, f))
            }
        },
        _ => None,
    }
}

/// Splits a conflict report into the printed pieces of its two windows.
fn scan_report<'a>(s: &'a str) -> (r: Option<((&'a str, &'a str, &'a str, char, char), (&'a str, &'a str, &'a str, char, char))>)
    ensures
        r matches Some(p) ==> is_conflict_report(s@, pieces_of(p.0), pieces_of(p.1)),
        r is None ==> forall|n: WindowPieces, o: WindowPieces|
            #![trigger is_conflict_report(s@, n, o)]
            !is_conflict_report(s@, n, o),
{
    let len = s.unicode_len();
    let ((e0, e1, e2), (f0, f1, f2)) = match scan_report_positions(s, len) {
        Some(p) => p,
        None => return None,
    };
    let new_window = (
        s.substring_char(29, e0),
        s.substring_char(e0 + 4, e1),
        s.substring_char(e1 + 3, e2),
        s.get_char(e0 + 2),
        s.get_char(e2 + 1),
    );
    let old_window = (
        s.substring_char(e2 + 57, f0),
        s.substring_char(f0 + 4, f1),
        s.substring_char(f1 + 3, f2),
        s.get_char(f0 + 2),
        s.get_char(f2 + 1),
    );
    proof {
        assert forall|n: WindowPieces, o: WindowPieces|
            #![trigger is_conflict_report(s@, n, o)]
            is_conflict_report(s@, n, o) implies n == pieces_of(new_window) && o == pieces_of(
            old_window,
        ) by {
            lemma_report_pieces(s@, n, o);
        }
    }
    let brackets_ok = (new_window.3 == '[' || new_window.3 == '(') && (new_window.4 == ']'
        || new_window.4 == ')') && (old_window.3 == '[' || old_window.3 == '(') && (old_window.4
        == ']' || old_window.4 == ')');
    if !brackets_ok || !is_resource_id(new_window.0) || !is_resource_id(old_window.0) {
        return None;
    }
    let rendered = render_report(new_window, old_window);
    if rendered == String::from_str(s) {
        proof {
            lemma_run_without_quote(s@, e0 + 4, e1 as int);
            lemma_run_without_quote(s@, e1 + 3, e2 as int);
            lemma_run_without_quote(s@, f0 + 4, f1 as int);
            lemma_run_without_quote(s@, f1 + 3, f2 as int);
        }
        Some((new_window, old_window))
    } else {
        None
    }
}

/// Reads the detail of an exclusion violation of the reservations table: the
/// windows of the new and the stored reservation where the text is such a
/// report and its times can be read, the text itself otherwise (see
/// `is_conflict_info_of`). The brackets of the printed ranges are not kept.
pub fn parse_conflict(detail: &str) -> (r: ReservationConflictInfo)
    ensures
        is_conflict_info_of(r, detail@),
{
    match scan_report(detail) {
        Some((new_window, old_window)) => {
            let ghost n = pieces_of(new_window);
            let ghost o = pieces_of(old_window);
            let ns = parse_pg_timestamp(new_window.1);
            let ne = parse_pg_timestamp(new_window.2);
            let os = parse_pg_timestamp(old_window.1);
            let oe = parse_pg_timestamp(old_window.2);
            if ns.is_some() && ne.is_some() && os.is_some() && oe.is_some() {
                let conflict = ReservationConflict {
                    new: ReservationWindow {
                        rid: String::from_str(new_window.0),
                        start: ns.unwrap(),
                        end: ne.unwrap(),
                    },
                    old: ReservationWindow {
                        rid: String::from_str(old_window.0),
                        start: os.unwrap(),
                        end: oe.unwrap(),
                    },
                };
                assert(is_conflict_report(detail@, n, o));
                ReservationConflictInfo::Parsed(conflict)
            } else {
                proof {
                    assert forall|n2: WindowPieces, o2: WindowPieces|
                        #![trigger is_conflict_report(detail@, n2, o2)]
                        is_conflict_report(detail@, n2, o2) implies !(window_times_parse(n2)
                        && window_times_parse(o2)) by {
                        lemma_conflict_report_unique(detail@, n, o, n2, o2);
                    }
                }
                ReservationConflictInfo::Unparsed(String::from_str(detail))
            }
        },
        None => ReservationConflictInfo::Unparsed(String::from_str(detail)),
    }
}

/// Every non-empty run of ASCII letters (lower or upper case), digits, `_`
/// and `-` is a resource id of a conflict report.
pub proof fn lemma_resource_id_chars(rid: Seq<char>)
    requires
        rid.len() > 0,
        forall|i: int|
            0 <= i < rid.len() ==> {
                let c = #[trigger] rid[i];
                ('a' <= c <= 'z') || ('A' <= c <= 'Z') || ('0' <= c <= '9') || c == '_' || c == '-'
            },
    ensures
        is_resource_id_text(rid),
{
    assert forall|i: int| 0 <= i < rid.len() implies is_ident_char(#[trigger] rid[i]) by {
        let c = rid[i];
        assert(('a' <= c <= 'z') || ('A' <= c <= 'Z') || ('0' <= c <= '9') || c == '_' || c == '-');
    }
}

/// Reading the report that Postgres prints for two windows gives those
/// windows back: whenever both resource ids are non-empty runs of ASCII
/// letters (either case), digits, `_` and `-`, the four times hold no quote
/// and chrono reads them, and each range opens with `[` or `(` and closes
/// with `]` or `)`, what `parse_conflict` answers for the printed text is
/// `Parsed` with exactly those resource ids and times.
pub proof fn lemma_report_round_trip(info: ReservationConflictInfo, n: WindowPieces, o: WindowPieces)
    requires
        n.0.len() > 0,
        o.0.len() > 0,
        forall|i: int|
            0 <= i < n.0.len() ==> {
                let c = #[trigger] n.0[i];
                ('a' <= c <= 'z') || ('A' <= c <= 'Z') || ('0' <= c <= '9') || c == '_' || c == '-'
            },
        forall|i: int|
            0 <= i < o.0.len() ==> {
                let c = #[trigger] o.0[i];
                ('a' <= c <= 'z') || ('A' <= c <= 'Z') || ('0' <= c <= '9') || c == '_' || c == '-'
            },
        forall|i: int| 0 <= i < n.1.len() ==> #[trigger] n.1[i] != '"',
        forall|i: int| 0 <= i < n.2.len() ==> #[trigger] n.2[i] != '"',
        forall|i: int| 0 <= i < o.1.len() ==> #[trigger] o.1[i] != '"',
        forall|i: int| 0 <= i < o.2.len() ==> #[trigger] o.2[i] != '"',
        n.3 == '[' || n.3 == '(',
        n.4 == ']' || n.4 == ')',
        o.3 == '[' || o.3 == '(',
        o.4 == ']' || o.4 == ')',
        pg_timestamp(n.1) is Some,
        pg_timestamp(n.2) is Some,
        pg_timestamp(o.1) is Some,
        pg_timestamp(o.2) is Some,
        is_conflict_info_of(
            info,
            "Key "@ + ("(resource_id, timespan)=("@ + n.0 + ", "@ + seq![n.3] + "\""@ + n.1 + "\",\""@
                + n.2 + "\""@ + seq![n.4] + ")"@) + " conflicts with existing key "@ + (
            "(resource_id, timespan)=("@ + o.0 + ", "@ + seq![o.3] + "\""@ + o.1 + "\",\""@ + o.2
                + "\""@ + seq![o.4] + ")"@) + "."@,
        ),
    ensures
        info matches ReservationConflictInfo::Parsed(c) && {
            &&& c.new.rid@ == n.0
            &&& pg_timestamp(n.1) == Some(c.new.start)
            &&& pg_timestamp(n.2) == Some(c.new.end)
            &&& c.old.rid@ == o.0
            &&& pg_timestamp(o.1) == Some(c.old.start)
            &&& pg_timestamp(o.2) == Some(c.old.end)
        },
{
    lemma_resource_id_chars(n.0);
    lemma_resource_id_chars(o.0);
    let text = conflict_text(n, o);
    assert(is_conflict_report(text, n, o));
    match info {
        ReservationConflictInfo::Parsed(c) => {
            let (n2, o2) = choose|n2: WindowPieces, o2: WindowPieces|
                #![trigger is_conflict_report(text, n2, o2)]
                is_conflict_report(text, n2, o2) && window_times_parse(n2) && window_times_parse(o2)
                    && is_window_of(c.new, n2) && is_window_of(c.old, o2);
            lemma_conflict_report_unique(text, n, o, n2, o2);
        },
        ReservationConflictInfo::Unparsed(_) => {
            assert(!(window_times_parse(n) && window_times_parse(o)));
        },
    }
}

} // verus!
