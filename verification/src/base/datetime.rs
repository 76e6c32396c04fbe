//! Points in time with a fixed offset from UTC, held as plain numbers.
use vstd::prelude::*;
use crate::base::error::DatabaseError;

verus! {

/// Whether chrono can build a UTC date-time from this many seconds since the
/// epoch and nanoseconds within the second: the day lies between the first
/// day of year -262143 and the last day of year 262142, and the nanoseconds
/// stay under two seconds, going past one second (a leap second) only in the
/// last second of a minute.
pub open spec fn timestamp_accepted(secs: i64, nanos: u32) -> bool {
    &&& -8_334_601_228_800 <= secs <= 8_210_266_876_799
    &&& nanos < 2_000_000_000
    &&& (nanos < 1_000_000_000 || secs % 60 == 59)
}

/// The text chrono gives a date-time at `secs`/`nanos` after the epoch,
/// shown at an offset of `offset_secs` east of UTC.
pub uninterp spec fn datetime_display(secs: i64, nanos: u32, offset_secs: i32) -> Seq<char>;

/// Whether `offset_secs` is an offset chrono accepts (strictly less than a
/// day either way).
pub open spec fn offset_accepted(offset_secs: i32) -> bool {
    -86_400 < offset_secs < 86_400
}

/// A point in time: seconds and nanoseconds since the Unix epoch and the
/// offset east of UTC at which it is shown.
#[derive(Debug, Clone, Copy)]
pub struct LocalDateTime {
    secs: i64,
    nanos: u32,
    offset_secs: i32,
}

/// `chrono::DateTime::from_timestamp`: whether it returns a value for these
/// arguments. The contract states the checks its source makes: the day count
/// from the common era must lie between `NaiveDate::MIN` and `NaiveDate::MAX`
/// (`from_num_days_from_ce_opt`), and the second of the day with the
/// nanoseconds must make a time (`from_num_seconds_from_midnight_opt`).
#[verifier::external_body]
fn chrono_timestamp_accepted(secs: i64, nanos: u32) -> (r: bool)
    ensures
        r == timestamp_accepted(secs, nanos),
{
    chrono::DateTime::from_timestamp(secs, nanos).is_some()
}

/// `chrono::DateTime::from_timestamp`, moved to the offset given by
/// `chrono::FixedOffset::east_opt` and shown by its `Display`: the text is
/// named by `datetime_display` and nothing more of it is stated.
#[verifier::external_body]
fn chrono_display(secs: i64, nanos: u32, offset_secs: i32) -> (r: String)
    requires
        timestamp_accepted(secs, nanos),
        offset_accepted(offset_secs),
    ensures
        r@ == datetime_display(secs, nanos, offset_secs),
{
    let offset = chrono::FixedOffset::east_opt(offset_secs).unwrap();
    chrono::DateTime::from_timestamp(secs, nanos).unwrap().with_timezone(&offset).to_string()
}

/// `chrono::Local::now`, taken apart into its timestamp, its nanoseconds and
/// the offset of the machine's time zone. The instant depends on the clock
/// and the offset on the machine, so only the validity of the parts is
/// stated: chrono built the instant from exactly these parts, and its offsets
/// are always accepted.
#[verifier::external_body]
fn chrono_local_now() -> (r: (i64, u32, i32))
    ensures
        timestamp_accepted(r.0, r.1),
        offset_accepted(r.2),
{
    let now = chrono::Local::now();
    (now.timestamp(), now.timestamp_subsec_nanos(), now.offset().local_minus_utc())
}

impl LocalDateTime {
    #[verifier::type_invariant]
    spec fn wf(self) -> bool {
        &&& timestamp_accepted(self.secs, self.nanos)
        &&& offset_accepted(self.offset_secs)
    }

    pub closed spec fn spec_secs(self) -> i64 {
        self.secs
    }

    pub closed spec fn spec_nanos(self) -> u32 {
        self.nanos
    }

    pub closed spec fn spec_offset_secs(self) -> i32 {
        self.offset_secs
    }

    /// The point in time given by its parts, or `None` where chrono cannot
    /// represent it.
    pub fn new(secs: i64, nanos: u32, offset_secs: i32) -> (r: Option<LocalDateTime>)
        ensures
            r is Some <==> (timestamp_accepted(secs, nanos) && offset_accepted(offset_secs)),
            r matches Some(d) ==> d.spec_secs() == secs && d.spec_nanos() == nanos
                && d.spec_offset_secs() == offset_secs,
    {
        if -86_400 < offset_secs && offset_secs < 86_400 && chrono_timestamp_accepted(secs, nanos) {
            Some(LocalDateTime { secs, nanos, offset_secs })
        } else {
            None
        }
    }

    /// The current time at the machine's offset.
    pub fn now() -> (r: LocalDateTime) {
        let (secs, nanos, offset_secs) = chrono_local_now();
        LocalDateTime { secs, nanos, offset_secs }
    }

    pub fn secs(&self) -> (r: i64)
        ensures
            r == self.spec_secs(),
    {
        self.secs
    }

    pub fn nanos(&self) -> (r: u32)
        ensures
            r == self.spec_nanos(),
    {
        self.nanos
    }

    pub fn offset_secs(&self) -> (r: i32)
        ensures
            r == self.spec_offset_secs(),
    {
        self.offset_secs
    }

    /// The text of this point in time, e.g. "2024-01-02 03:04:05 +08:00".
    pub fn to_string(&self) -> (r: String)
        ensures
            r@ == datetime_display(self.spec_secs(), self.spec_nanos(), self.spec_offset_secs()),
    {
        proof {
            use_type_invariant(self);
        }
        chrono_display(self.secs, self.nanos, self.offset_secs)
    }
}

/// The offset of the machine's time zone at `secs` after the epoch
/// (`chrono::Local`). It depends on the machine, so only its validity is
/// stated.
#[verifier::external_body]
fn chrono_local_offset_at(secs: i64) -> (r: i32)
    requires
        timestamp_accepted(secs, 0),
    ensures
        offset_accepted(r),
{
    let utc = chrono::DateTime::from_timestamp(secs, 0).unwrap();
    let local: chrono::DateTime<chrono::Local> = chrono::DateTime::from(utc);
    local.offset().local_minus_utc()
}

/// The point `seconds` after the epoch, shown at the machine's offset.
pub fn create_datetime_local_from_seconds(seconds: i64) -> (r: LocalDateTime)
    requires
        timestamp_accepted(seconds, 0),
    ensures
        r.spec_secs() == seconds,
        r.spec_nanos() == 0,
{
    let offset_secs = chrono_local_offset_at(seconds);
    LocalDateTime { secs: seconds, nanos: 0, offset_secs }
}

/// `create_datetime_local_from_seconds` where chrono can represent the
/// point; `None` otherwise.
pub fn datetime_local_from_seconds(seconds: i64) -> (r: Option<LocalDateTime>)
    ensures
        r is Some <==> timestamp_accepted(seconds, 0),
        r matches Some(d) ==> d.spec_secs() == seconds && d.spec_nanos() == 0,
{
    if chrono_timestamp_accepted(seconds, 0) {
        Some(create_datetime_local_from_seconds(seconds))
    } else {
        None
    }
}

/// What `chrono::NaiveDateTime::parse_from_str` gives for a text and a
/// format: the date-time as seconds and nanoseconds since the epoch (read as
/// UTC), or the text of its parse error.
pub uninterp spec fn naive_parse(text: Seq<char>, format: Seq<char>) -> Result<(i64, u32), Seq<char>>;

/// `chrono::NaiveDateTime::parse_from_str`, its date-time taken as seconds
/// and nanoseconds since the epoch, or the text of its error. The result is
/// named by `naive_parse` and nothing more of it is stated.
#[verifier::external_body]
fn chrono_parse_naive(text: &str, format: &str) -> (r: Result<(i64, u32), String>)
    ensures
        match r {
            Ok(p) => naive_parse(text@, format@) == Ok::<(i64, u32), Seq<char>>(p),
            Err(e) => naive_parse(text@, format@) == Err::<(i64, u32), Seq<char>>(e@),
        },
{
    match chrono::NaiveDateTime::parse_from_str(text, format) {
        Ok(d) => Ok((d.and_utc().timestamp(), d.and_utc().timestamp_subsec_nanos())),
        Err(e) => Err(e.to_string()),
    }
}

/// `chrono::Local::from_local_datetime` on the local date-time `secs`/`nanos`
/// after the epoch: the machine's offset there where that local time occurs
/// exactly once, else `None`. It depends on the machine, so only the
/// validity of the offset is stated.
#[verifier::external_body]
fn chrono_single_local_offset(secs: i64, nanos: u32) -> (r: Option<i32>)
    ensures
        r matches Some(o) ==> offset_accepted(o),
{
    let naive = match chrono::DateTime::from_timestamp(secs, nanos) {
        Some(d) => d.naive_utc(),
        None => return None,
    };
    match chrono::TimeZone::from_local_datetime(&chrono::Local, &naive) {
        chrono::LocalResult::Single(v) => Some(v.offset().local_minus_utc()),
        _ => None,
    }
}

/// The point whose local time is `local_secs`/`nanos` after the epoch at
/// the offset `offset`, as (seconds, nanoseconds, offset): where there is an
/// offset, it is valid, and chrono can represent the point.
pub open spec fn local_from_offset_spec(local_secs: i64, nanos: u32, offset: Option<i32>) -> Option<(i64, u32, i32)> {
    match offset {
        Some(o) => if offset_accepted(o) && i64::MIN <= local_secs - o <= i64::MAX && timestamp_accepted(
            (local_secs - o) as i64,
            nanos,
        ) {
            Some(((local_secs - o) as i64, nanos, o))
        } else {
            None
        },
        None => None,
    }
}

/// A local time at an offset is the point that many seconds earlier: the
/// point's seconds plus the offset give back the local seconds, the
/// nanoseconds are kept, and the offset is the one found. There is a point
/// exactly when an offset was found, it is less than a day either way, and
/// chrono can represent the point; without an offset there is none.
pub proof fn law_local_from_offset(local_secs: i64, nanos: u32, o: i32)
    ensures
        local_from_offset_spec(local_secs, nanos, None) is None,
        local_from_offset_spec(local_secs, nanos, Some(o)) is Some <==> (-86_400 < o < 86_400 && i64::MIN
            <= local_secs - o <= i64::MAX && timestamp_accepted((local_secs - o) as i64, nanos)),
        local_from_offset_spec(local_secs, nanos, Some(o)) matches Some(t) ==> t.0 + o == local_secs && t.1
            == nanos && t.2 == o,
{
}

/// `r` is the point `p` where there is one, else `ConvertError("Invalid
/// datetime")`.
pub open spec fn local_outcome(r: Result<LocalDateTime, DatabaseError>, p: Option<(i64, u32, i32)>) -> bool {
    match p {
        Some((secs, nanos, o)) => (r matches Ok(t) && t.spec_secs() == secs && t.spec_nanos() == nanos
            && t.spec_offset_secs() == o),
        None => (r matches Err(DatabaseError::ConvertError(e)) && e@ == "Invalid datetime"@),
    }
}

/// The point whose local time is `local_secs`/`nanos` after the epoch at the
/// offset found for it, or `ConvertError("Invalid datetime")` where no single
/// offset was found or the point cannot be represented.
pub fn local_from_offset(local_secs: i64, nanos: u32, offset: Option<i32>) -> (r: Result<LocalDateTime, DatabaseError>)
    ensures
        local_outcome(r, local_from_offset_spec(local_secs, nanos, offset)),
{
    let o = match offset {
        Some(o) => o,
        None => {
            return Err(DatabaseError::ConvertError(String::from_str("Invalid datetime")));
        },
    };
    if !(-86_400 < o && o < 86_400) {
        return Err(DatabaseError::ConvertError(String::from_str("Invalid datetime")));
    }
    let wide: i128 = local_secs as i128 - o as i128;
    if wide < i64::MIN as i128 || wide > i64::MAX as i128 {
        return Err(DatabaseError::ConvertError(String::from_str("Invalid datetime")));
    }
    let secs = wide as i64;
    if !chrono_timestamp_accepted(secs, nanos) {
        return Err(DatabaseError::ConvertError(String::from_str("Invalid datetime")));
    }
    Ok(LocalDateTime { secs, nanos, offset_secs: o })
}

/// Reads a local date-time from text by a chrono format. A parse error is
/// given back as `ConvertError` with chrono's message. Otherwise the parsed
/// local seconds and nanoseconds are handed to the machine's time zone, and
/// the point is built from the offset it gives (see `local_from_offset`).
pub fn format_date_time_local_from_str(time_str: &str, time_format: &str) -> (r: Result<LocalDateTime, DatabaseError>)
    ensures
        naive_parse(time_str@, time_format@) matches Err(m) ==> (r matches Err(DatabaseError::ConvertError(e))
            && e@ == m),
        naive_parse(time_str@, time_format@) matches Ok(p) ==> exists|o: Option<i32>|
            (o matches Some(x) ==> offset_accepted(x)) && #[trigger] local_outcome(
                r,
                local_from_offset_spec(p.0, p.1, o),
            ),
{
    let (local_secs, nanos) = match chrono_parse_naive(time_str, time_format) {
        Ok(p) => p,
        Err(m) => {
            return Err(DatabaseError::ConvertError(m));
        },
    };
    let offset = chrono_single_local_offset(local_secs, nanos);
    let r = local_from_offset(local_secs, nanos, offset);
    proof {
        let p = naive_parse(time_str@, time_format@)->Ok_0;
        assert(p.0 == local_secs && p.1 == nanos);
        assert((offset matches Some(x) ==> offset_accepted(x)) && local_outcome(
            r,
            local_from_offset_spec(p.0, p.1, offset),
        ));
    }
    r
}

} // verus!
