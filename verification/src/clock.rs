//! The wall clock, read through chrono.

use vstd::prelude::*;

verus! {

/// One reading of the wall clock: its RFC 3339 text and its count of
/// nanoseconds since the Unix epoch (`None` when that count does not fit in
/// an `i64`).
#[derive(Debug)]
pub struct Timestamp {
    /// The instant as RFC 3339 text.
    pub rfc3339: String,
    /// Nanoseconds since the Unix epoch, when they fit in an `i64`.
    pub nanos: Option<i64>,
}

/// The mathematical value of a [`Timestamp`].
pub struct TimestampView {
    pub rfc3339: Seq<char>,
    pub nanos: Option<i64>,
}

impl View for Timestamp {
    type V = TimestampView;

    open spec fn view(&self) -> TimestampView {
        TimestampView { rfc3339: self.rfc3339@, nanos: self.nanos }
    }
}

/// The distance of the system clock from the Unix epoch:
/// `SystemTime::now().duration_since(UNIX_EPOCH)`, as whole seconds and the
/// nanoseconds of the fraction. `Ok` for a clock at or after the epoch;
/// `Err` with the distance before it (`SystemTimeError::duration`)
/// otherwise. std documents the fraction of a `Duration`
/// (`subsec_nanos`) as always below one billion; nothing else is stated,
/// the reading being the time of the call.
#[verifier::external_body]
fn since_epoch() -> (r: Result<(u64, u32), (u64, u32)>)
    ensures
        match r {
            Ok((_, n)) => n < 1_000_000_000,
            Err((_, n)) => n < 1_000_000_000,
        },
{
    match std::time::SystemTime::now().duration_since(std::time::UNIX_EPOCH) {
        Ok(d) => Ok((d.as_secs(), d.subsec_nanos())),
        Err(e) => Err((e.duration().as_secs(), e.duration().subsec_nanos())),
    }
}

/// The RFC 3339 text of the instant `secs` seconds and `nsecs` nanoseconds
/// after the Unix epoch, in UTC, as `chrono::DateTime::<Utc>::to_rfc3339`
/// writes it.
pub uninterp spec fn rfc3339_at(secs: i64, nsecs: u32) -> Seq<char>;

/// The earliest second since the Unix epoch that chrono represents: the
/// first second of the year -262143.
pub const CLOCK_MIN_SECS: i64 = -8_334_601_228_800;

/// The latest second since the Unix epoch that chrono represents: the last
/// second of the year 262142.
pub const CLOCK_MAX_SECS: i64 = 8_210_266_876_799;

/// The nanoseconds since the epoch of an instant, when they fit in an `i64`.
pub open spec fn nanos_at(secs: i64, nsecs: u32) -> Option<i64> {
    let v = secs * 1_000_000_000 + nsecs;
    if i64::MIN <= v <= i64::MAX {
        Some(v as i64)
    } else {
        None
    }
}

/// The reading of the instant `secs` seconds and `nsecs` nanoseconds after
/// the Unix epoch.
pub open spec fn instant(secs: i64, nsecs: u32) -> TimestampView {
    TimestampView { rfc3339: rfc3339_at(secs, nsecs), nanos: nanos_at(secs, nsecs) }
}

/// Whether `t` is a reading of some instant that chrono represents: its
/// text and its count of nanoseconds belong to one and the same instant.
pub open spec fn is_reading(t: TimestampView) -> bool {
    exists|secs: i64, nsecs: u32|
        CLOCK_MIN_SECS <= secs <= CLOCK_MAX_SECS && nsecs < 1_000_000_000 && t == #[trigger] instant(
            secs,
            nsecs,
        )
}

/// The instant `secs` seconds and `nsecs` nanoseconds after the Unix epoch
/// (`secs` may be negative): `chrono::DateTime::<Utc>::from_timestamp`,
/// formatted with `DateTime::to_rfc3339` and counted with
/// `DateTime::timestamp_nanos_opt`. chrono gives `None` exactly for an
/// instant outside its range of years (-262143 to 262142), and counts the
/// nanoseconds since the epoch, `None` when they do not fit in an `i64`. The
/// text is named: it depends on the instant alone.
#[verifier::external_body]
fn utc_at(secs: i64, nsecs: u32) -> (t: Option<Timestamp>)
    requires
        nsecs < 1_000_000_000,
    ensures
        t is Some <==> CLOCK_MIN_SECS <= secs <= CLOCK_MAX_SECS,
        t matches Some(ts) ==> ts.rfc3339@ == rfc3339_at(secs, nsecs) && ts.nanos == nanos_at(
            secs,
            nsecs,
        ),
{
    match chrono::DateTime::from_timestamp(secs, nsecs) {
        Some(dt) => Some(Timestamp { rfc3339: dt.to_rfc3339(), nanos: dt.timestamp_nanos_opt() }),
        None => None,
    }
}

/// The signed offset from the epoch, as seconds and a fraction in
/// `0..1_000_000_000` nanoseconds, of a reading of [`since_epoch`].
pub open spec fn epoch_offset_of(r: Result<(u64, u32), (u64, u32)>) -> (int, int) {
    match r {
        Ok((s, n)) => (s as int, n as int),
        Err((s, n)) => if n == 0 {
            (-s, 0)
        } else {
            (-s - 1, 1_000_000_000 - n)
        },
    }
}

/// `x` held within the seconds that chrono represents.
pub open spec fn clamp_secs(x: int) -> int {
    if x > CLOCK_MAX_SECS {
        CLOCK_MAX_SECS as int
    } else if x < CLOCK_MIN_SECS {
        CLOCK_MIN_SECS as int
    } else {
        x
    }
}

/// The offset of a reading from the epoch, its seconds held within the
/// range that chrono represents.
fn epoch_offset(r: Result<(u64, u32), (u64, u32)>) -> (o: (i64, u32))
    requires
        match r {
            Ok((_, n)) => n < 1_000_000_000,
            Err((_, n)) => n < 1_000_000_000,
        },
    ensures
        o.0 == clamp_secs(epoch_offset_of(r).0),
        o.1 == epoch_offset_of(r).1,
        o.1 < 1_000_000_000,
{
    match r {
        Ok((s, n)) => {
            let secs: i64 = if s > 8_210_266_876_799u64 {
                CLOCK_MAX_SECS
            } else {
                s as i64
            };
            (secs, n)
        },
        Err((s, n)) => {
            let frac: u32 = if n == 0 {
                0
            } else {
                1_000_000_000 - n
            };
            if s >= 8_334_601_228_800u64 {
                (CLOCK_MIN_SECS, frac)
            } else if n == 0 {
                (-(s as i64), 0)
            } else {
                (-(s as i64) - 1, frac)
            }
        },
    }
}

/// Reads the clock once: the system time's offset from the Unix epoch
/// ([`since_epoch`], before or after it) as a chrono instant ([`utc_at`]).
/// A system time beyond the years that chrono represents is held at the
/// nearest end of that range. Never panics. The result is a reading of some
/// instant; which one is the time of the call.
pub(crate) fn read_clock() -> (t: Timestamp)
    ensures
        is_reading(t@),
{
    let (secs, nsecs) = epoch_offset(since_epoch());
    match utc_at(secs, nsecs) {
        Some(t) => {
            assert(t@ == instant(secs, nsecs));
            t
        },
        None => {
            proof {
                assert(false);
            }
            Timestamp { rfc3339: String::new(), nanos: None }
        },
    }
}

} // verus!
