//! Dates as the protocol carries them: a year, milliseconds, and seconds
//! since the start of that year.

use vstd::prelude::*;

use super::codec::{i16_at, i16_bytes, i32_at, i32_bytes, push_i16, push_i32, read_i16, read_i32};
use super::ProtocolError;

verus! {

#[derive(Debug, Clone, Copy, PartialEq, Eq, Structural)]
pub struct DateParameter {
    pub year: i16,
    pub milliseconds: i16,
    pub seconds: i32,
}

pub open spec fn date_bytes(d: DateParameter) -> Seq<u8> {
    i16_bytes(d.year) + i16_bytes(d.milliseconds) + i32_bytes(d.seconds)
}

/// The date that exactly eight bytes stand for.
pub open spec fn parse_date(s: Seq<u8>) -> Option<DateParameter> {
    if s.len() == 8 {
        Some(DateParameter { year: i16_at(s, 0), milliseconds: i16_at(s, 2), seconds: i32_at(s, 4) })
    } else {
        None
    }
}

impl Default for DateParameter {
    fn default() -> (r: Self)
        ensures
            r == (DateParameter { year: 0, milliseconds: 0, seconds: 0 }),
    {
        Self { year: 0, milliseconds: 0, seconds: 0 }
    }
}

impl DateParameter {
    pub fn to_bytes(&self) -> (r: Vec<u8>)
        ensures
            r@ == date_bytes(*self),
    {
        let mut out: Vec<u8> = Vec::new();
        push_i16(&mut out, self.year);
        push_i16(&mut out, self.milliseconds);
        push_i32(&mut out, self.seconds);
        assert(out@ =~= date_bytes(*self));
        out
    }

    /// The date that `data` stands for, when it is exactly eight bytes long.
    pub fn from_data(data: &[u8]) -> (r: Option<Self>)
        ensures
            r == parse_date(data@),
    {
        if data.len() == 8 {
            Some(Self { year: read_i16(data, 0), milliseconds: read_i16(data, 2), seconds: read_i32(data, 4) })
        } else {
            None
        }
    }
}

/// The UTC year of the moment `secs` seconds after the Unix epoch, as the
/// `time` crate computes it; `None` where that moment lies outside the years
/// it can represent.
pub uninterp spec fn epoch_year(secs: i64) -> Option<i32>;

/// The Unix timestamp of midnight UTC on the first of January of `year`, as
/// the `time` crate computes it; `None` for a year it cannot represent.
pub uninterp spec fn year_start_timestamp(year: i32) -> Option<i64>;

/// Calls `time::OffsetDateTime::UNIX_EPOCH.checked_add` with
/// `time::Duration::seconds(secs)` and takes the year of the result. The
/// contract names the outcome as a function of `secs`.
#[verifier::external_body]
fn utc_year(secs: i64) -> (r: Option<i32>)
    ensures
        r == epoch_year(secs),
{
    match time::OffsetDateTime::UNIX_EPOCH.checked_add(time::Duration::seconds(secs)) {
        Some(moment) => Some(moment.year()),
        None => None,
    }
}

/// Calls `time::Date::from_ordinal_date(year, 1)`, then `with_hms(0, 0, 0)`,
/// `assume_offset(UtcOffset::UTC)` and `unix_timestamp`. The contract names
/// the outcome as a function of `year`; either refusal gives `None`.
#[verifier::external_body]
fn utc_year_start(year: i32) -> (r: Option<i64>)
    ensures
        r == year_start_timestamp(year),
{
    match time::Date::from_ordinal_date(year, 1) {
        Ok(day) => match day.with_hms(0, 0, 0) {
            Ok(midnight) => Some(midnight.assume_offset(time::UtcOffset::UTC).unix_timestamp()),
            Err(_) => None,
        },
        Err(_) => None,
    }
}

/// The date of the moment `secs` seconds after the epoch, in a year that
/// starts at the timestamp `start`: the year cut to 16 bits and the seconds
/// since the year's start cut to 32 bits.
pub open spec fn date_in_year_spec(secs: int, year: i32, start: i64) -> DateParameter {
    DateParameter { year: year as i16, milliseconds: 0, seconds: (secs - start) as i32 }
}

/// The date of the moment `secs` seconds after the epoch, by the `time`
/// crate's calendar: `None` where it cannot place that moment.
pub open spec fn date_of_epoch_seconds(secs: i64) -> Option<DateParameter> {
    match epoch_year(secs) {
        Some(year) => match year_start_timestamp(year) {
            Some(start) => Some(date_in_year_spec(secs as int, year, start)),
            None => None,
        },
        None => None,
    }
}

impl DateParameter {
    /// The date of the moment `secs` seconds after the epoch, given the year
    /// that moment falls in and the timestamp at which that year starts.
    pub fn in_year(secs: i64, year: i32, start: i64) -> (r: Self)
        ensures
            r == date_in_year_spec(secs as int, year, start),
    {
        let diff: i128 = (secs as i128) - (start as i128);
        Self { year: year as i16, milliseconds: 0, seconds: diff as i32 }
    }

    /// The date of the moment `secs` seconds after the epoch (a time before
    /// the epoch counts as the epoch itself, so the caller passes zero for
    /// it). Fails with `SystemError` where the calendar cannot place it.
    pub fn try_from_unix_seconds(secs: u64) -> (r: Result<Self, ProtocolError>)
        requires
            secs <= i64::MAX,
        ensures
            match date_of_epoch_seconds(secs as i64) {
                Some(d) => r == Ok::<Self, ProtocolError>(d),
                None => r matches Err(ProtocolError::SystemError),
            },
    {
        let secs: i64 = secs as i64;
        match utc_year(secs) {
            Some(year) => match utc_year_start(year) {
                Some(start) => Ok(Self::in_year(secs, year, start)),
                None => Err(ProtocolError::SystemError),
            },
            None => Err(ProtocolError::SystemError),
        }
    }

    /// The date of the moment `secs` seconds after the epoch, or the zero
    /// date where the calendar cannot place it.
    pub fn from_unix_seconds(secs: u64) -> (r: Self)
        requires
            secs <= i64::MAX,
        ensures
            match date_of_epoch_seconds(secs as i64) {
                Some(d) => r == d,
                None => r == (DateParameter { year: 0, milliseconds: 0, seconds: 0 }),
            },
    {
        match Self::try_from_unix_seconds(secs) {
            Ok(d) => d,
            Err(_) => Self::default(),
        }
    }
}

/// A date written out and read back is the same date.
pub proof fn lemma_date_roundtrip(d: DateParameter)
    ensures
        parse_date(date_bytes(d)) == Some(d),
{
    let s = date_bytes(d);
    super::codec::lemma_i16_roundtrip(d.year, s.subrange(2, 8));
    super::codec::lemma_i16_roundtrip(d.milliseconds, s.subrange(4, 8));
    super::codec::lemma_i32_roundtrip(d.seconds, Seq::empty());
    assert(s =~= i16_bytes(d.year) + s.subrange(2, 8));
    assert(s.subrange(2, 8) =~= i16_bytes(d.milliseconds) + s.subrange(4, 8));
    assert(s.subrange(4, 8) =~= i32_bytes(d.seconds) + Seq::<u8>::empty());
    assert(i16_at(s, 2) == i16_at(s.subrange(2, 8), 0));
    assert(i32_at(s, 4) == i32_at(s.subrange(4, 8), 0));
}

} // verus!
