use vstd::prelude::*;

verus! {

/// Reservation status as the database stores it (`rsvp.reservation_status`).
#[derive(Debug, Clone, Copy, PartialEq, Eq, Structural)]
pub enum RsvpStatus {
    Unknown,
    Pending,
    Confirmed,
    Blocked,
}

/// Reservation status as the service API carries it; its wire code is the
/// position of the variant (Unknown 0, Pending 1, Confirmed 2, Blocked 3).
#[derive(Debug, Clone, Copy, PartialEq, Eq, Structural)]
pub enum ReservationStatus {
    Unknown,
    Pending,
    Confirmed,
    Blocked,
}

/// The API status that a database status stands for: the variant of the same name.
pub open spec fn status_of_rsvp(status: RsvpStatus) -> ReservationStatus {
    match status {
        RsvpStatus::Pending => ReservationStatus::Pending,
        RsvpStatus::Blocked => ReservationStatus::Blocked,
        RsvpStatus::Confirmed => ReservationStatus::Confirmed,
        RsvpStatus::Unknown => ReservationStatus::Unknown,
    }
}

impl From<RsvpStatus> for ReservationStatus {
    fn from(status: RsvpStatus) -> (r: Self) {
        match status {
            RsvpStatus::Pending => ReservationStatus::Pending,
            RsvpStatus::Blocked => ReservationStatus::Blocked,
            RsvpStatus::Confirmed => ReservationStatus::Confirmed,
            RsvpStatus::Unknown => ReservationStatus::Unknown,
        }
    }
}

impl vstd::std_specs::convert::FromSpecImpl<RsvpStatus> for ReservationStatus {
    open spec fn obeys_from_spec() -> bool {
        true
    }

    open spec fn from_spec(v: RsvpStatus) -> ReservationStatus {
        status_of_rsvp(v)
    }
}

/// The lower-case name of a status, as the database enum spells it.
pub open spec fn status_name(status: ReservationStatus) -> Seq<char> {
    match status {
        ReservationStatus::Pending => "pending"@,
        ReservationStatus::Blocked => "blocked"@,
        ReservationStatus::Confirmed => "confirmed"@,
        ReservationStatus::Unknown => "unknown"@,
    }
}

/// The label of a database status in the `rsvp.reservation_status` enum.
pub open spec fn rsvp_status_name(status: RsvpStatus) -> Seq<char> {
    match status {
        RsvpStatus::Pending => "pending"@,
        RsvpStatus::Blocked => "blocked"@,
        RsvpStatus::Confirmed => "confirmed"@,
        RsvpStatus::Unknown => "unknown"@,
    }
}

/// The database status with a label, if any.
pub open spec fn rsvp_status_from_name(name: Seq<char>) -> Option<RsvpStatus> {
    if name == "pending"@ {
        Some(RsvpStatus::Pending)
    } else if name == "blocked"@ {
        Some(RsvpStatus::Blocked)
    } else if name == "confirmed"@ {
        Some(RsvpStatus::Confirmed)
    } else if name == "unknown"@ {
        Some(RsvpStatus::Unknown)
    } else {
        None
    }
}

impl RsvpStatus {
    /// The database status with a label, or `None` where the label names none.
    pub fn from_name(name: &str) -> (r: Option<RsvpStatus>)
        ensures
            r == rsvp_status_from_name(name@),
    {
        let name = String::from_str(name);
        if name == String::from_str("pending") {
            Some(RsvpStatus::Pending)
        } else if name == String::from_str("blocked") {
            Some(RsvpStatus::Blocked)
        } else if name == String::from_str("confirmed") {
            Some(RsvpStatus::Confirmed)
        } else if name == String::from_str("unknown") {
            Some(RsvpStatus::Unknown)
        } else {
            None
        }
    }
}

/// The wire code of a status.
pub open spec fn status_code(status: ReservationStatus) -> i32 {
    match status {
        ReservationStatus::Unknown => 0,
        ReservationStatus::Pending => 1,
        ReservationStatus::Confirmed => 2,
        ReservationStatus::Blocked => 3,
    }
}

/// The status with a wire code, if any.
pub open spec fn status_from_code(code: i32) -> Option<ReservationStatus> {
    if code == 0 {
        Some(ReservationStatus::Unknown)
    } else if code == 1 {
        Some(ReservationStatus::Pending)
    } else if code == 2 {
        Some(ReservationStatus::Confirmed)
    } else if code == 3 {
        Some(ReservationStatus::Blocked)
    } else {
        None
    }
}

/// The status with a wire code, `Pending` where the code names none.
pub open spec fn status_or_pending(code: i32) -> ReservationStatus {
    match status_from_code(code) {
        Some(s) => s,
        None => ReservationStatus::Pending,
    }
}

impl ReservationStatus {
    /// The lower-case name of the status ("pending", "blocked", "confirmed", "unknown").
    pub fn to_string(&self) -> (r: String)
        ensures
            r@ == status_name(*self),
    {
        match self {
            ReservationStatus::Pending => String::from_str("pending"),
            ReservationStatus::Blocked => String::from_str("blocked"),
            ReservationStatus::Confirmed => String::from_str("confirmed"),
            ReservationStatus::Unknown => String::from_str("unknown"),
        }
    }

    /// The wire code of the status.
    pub fn code(&self) -> (r: i32)
        ensures
            r == status_code(*self),
    {
        match self {
            ReservationStatus::Unknown => 0,
            ReservationStatus::Pending => 1,
            ReservationStatus::Confirmed => 2,
            ReservationStatus::Blocked => 3,
        }
    }

    /// The status with a wire code, or `None` where the code names no status.
    pub fn from_i32(code: i32) -> (r: Option<ReservationStatus>)
        ensures
            r == status_from_code(code),
    {
        if code == 0 {
            Some(ReservationStatus::Unknown)
        } else if code == 1 {
            Some(ReservationStatus::Pending)
        } else if code == 2 {
            Some(ReservationStatus::Confirmed)
        } else if code == 3 {
            Some(ReservationStatus::Blocked)
        } else {
            None
        }
    }

    /// The status with a wire code, `Pending` where the code names none.
    pub fn from_i32_or_pending(code: i32) -> (r: ReservationStatus)
        ensures
            r == status_or_pending(code),
    {
        match ReservationStatus::from_i32(code) {
            Some(s) => s,
            None => ReservationStatus::Pending,
        }
    }
}

/// Decoding the wire code of a status gives the status back.
pub proof fn lemma_code_round_trip(status: ReservationStatus)
    ensures
        status_from_code(status_code(status)) == Some(status),
{
}

/// A code decodes to a status exactly when it lies in 0..=3, and then it is
/// that status's code.
pub proof fn lemma_decode_then_encode(code: i32)
    ensures
        status_from_code(code) is Some <==> 0 <= code <= 3,
        status_from_code(code) matches Some(s) ==> status_code(s) == code,
{
}

/// Distinct statuses have distinct names.
pub proof fn lemma_names_distinct(a: ReservationStatus, b: ReservationStatus)
    requires
        a != b,
    ensures
        status_name(a) != status_name(b),
{
    reveal_strlit("pending");
    reveal_strlit("blocked");
    reveal_strlit("confirmed");
    reveal_strlit("unknown");
    assert(status_name(a).len() != status_name(b).len() || status_name(a)[0] != status_name(b)[0]);
}

/// Converting database statuses keeps them apart: distinct database statuses
/// become distinct API statuses, and each API status comes from one.
pub proof fn lemma_rsvp_conversion_bijective(a: RsvpStatus, b: RsvpStatus, s: ReservationStatus)
    ensures
        a != b ==> status_of_rsvp(a) != status_of_rsvp(b),
        exists|r: RsvpStatus| status_of_rsvp(r) == s,
{
    let r = match s {
        ReservationStatus::Pending => RsvpStatus::Pending,
        ReservationStatus::Blocked => RsvpStatus::Blocked,
        ReservationStatus::Confirmed => RsvpStatus::Confirmed,
        ReservationStatus::Unknown => RsvpStatus::Unknown,
    };
    assert(status_of_rsvp(r) == s);
}

/// A database status and the API status it converts to share their name,
/// and reading a database label back gives the database status.
pub proof fn lemma_names_agree(status: RsvpStatus)
    ensures
        status_name(status_of_rsvp(status)) == rsvp_status_name(status),
        rsvp_status_from_name(rsvp_status_name(status)) == Some(status),
{
    reveal_strlit("pending");
    reveal_strlit("blocked");
    reveal_strlit("confirmed");
    reveal_strlit("unknown");
    assert("pending"@[0] == 'p' && "blocked"@[0] == 'b' && "confirmed"@[0] == 'c'
        && "unknown"@[0] == 'u');
}

} // verus!
