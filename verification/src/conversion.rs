//! Conversions between moments and spans of time and their protobuf form,
//! and between download statuses and their protobuf form.
use vstd::prelude::*;

use crate::download::DownloadStatus;
use crate::pretty_print::status_label;
use crate::rpc::messages::UtcTime;

verus! {

/// chrono's span of time, carried through without looking inside.
#[verifier::external_type_specification]
#[verifier::external_body]
pub struct ExTimeDelta(chrono::TimeDelta);

/// A moment in protobuf form: seconds since the Unix epoch and a non-negative
/// count of nanoseconds under one second.
#[derive(Debug, Clone, Copy, PartialEq, Eq, Structural)]
pub struct TimestampProto {
    pub seconds: i64,
    pub nanos: i32,
}

/// A span in protobuf form: seconds and nanoseconds, both of the sign of the span.
#[derive(Debug, Clone, Copy, PartialEq, Eq, Structural)]
pub struct DurationProto {
    pub seconds: i64,
    pub nanos: i32,
}

/// One second in nanoseconds.
pub open spec fn nanos_per_sec() -> int {
    1_000_000_000
}

/// The nanoseconds since the epoch that a moment stands for.
pub open spec fn utc_total_nanos(t: UtcTime) -> int {
    t.seconds * nanos_per_sec() + t.nanos
}

/// The protobuf form of a moment given in nanoseconds since the epoch:
/// seconds rounded down, and the nanoseconds left over.
pub fn timestamp_proto_from_nanos(total_nanos: i64) -> (r: TimestampProto)
    ensures
        r.seconds * nanos_per_sec() + r.nanos == total_nanos,
        0 <= r.nanos < nanos_per_sec(),
        r.seconds == (total_nanos as int) / nanos_per_sec(),
        r.nanos == (total_nanos as int) % nanos_per_sec(),
{
    let seconds = total_nanos / 1_000_000_000;
    let nanos = total_nanos % 1_000_000_000;
    assert(seconds * 1_000_000_000 + nanos == total_nanos);
    assert(-1_000_000_000 < nanos < 1_000_000_000);
    assert(total_nanos >= 0 ==> nanos >= 0 && seconds >= 0);
    assert(total_nanos <= 0 ==> nanos <= 0 && seconds <= 0);
    // Ensure nanos are non-negative (required by Protobuf)
    let r = if nanos < 0 {
        TimestampProto { seconds: seconds - 1, nanos: (nanos + 1_000_000_000) as i32 }
    } else {
        TimestampProto { seconds, nanos: nanos as i32 }
    };
    proof {
        vstd::arithmetic::div_mod::lemma_fundamental_div_mod_converse(
            total_nanos as int,
            nanos_per_sec(),
            r.seconds as int,
            r.nanos as int,
        );
    }
    r
}

/// The protobuf form of a moment. The moment, in nanoseconds since the epoch,
/// must fit in an `i64`; a moment outside that range has no such form.
pub fn convert_to_timestamp_proto(t: &UtcTime) -> (r: TimestampProto)
    requires
        i64::MIN <= utc_total_nanos(*t) <= i64::MAX,
    ensures
        r.seconds * nanos_per_sec() + r.nanos == utc_total_nanos(*t),
        0 <= r.nanos < nanos_per_sec(),
        t.nanos < nanos_per_sec() ==> r == (TimestampProto { seconds: t.seconds, nanos: t.nanos as i32 }),
{
    let wide: i128 = (t.seconds as i128) * 1_000_000_000 + (t.nanos as i128);
    let total = wide as i64;
    timestamp_proto_from_nanos(total)
}

/// The protobuf form of a span given in nanoseconds: seconds and nanoseconds
/// that both take the sign of the span.
pub fn convert_to_duration_proto(total_nanos: i64) -> (r: DurationProto)
    ensures
        r.seconds * nanos_per_sec() + r.nanos == total_nanos,
        -nanos_per_sec() < r.nanos < nanos_per_sec(),
        total_nanos > 0 ==> r.seconds >= 0 && r.nanos >= 0,
        total_nanos < 0 ==> r.seconds <= 0 && r.nanos <= 0,
{
    let seconds = total_nanos / 1_000_000_000;
    let nanos = total_nanos % 1_000_000_000;
    assert(seconds * 1_000_000_000 + nanos == total_nanos);
    assert(-1_000_000_000 < nanos < 1_000_000_000);
    assert(total_nanos >= 0 ==> nanos >= 0 && seconds >= 0);
    assert(total_nanos <= 0 ==> nanos <= 0 && seconds <= 0);
    // Normalize signs to match Protobuf requirements
    if seconds > 0 && nanos < 0 {
        DurationProto { seconds: seconds - 1, nanos: (nanos + 1_000_000_000) as i32 }
    } else if seconds < 0 && nanos > 0 {
        DurationProto { seconds: seconds + 1, nanos: (nanos - 1_000_000_000) as i32 }
    } else {
        DurationProto { seconds, nanos: nanos as i32 }
    }
}

/// Seconds from the epoch (about 253,000 years) well inside the range of
/// dates chrono holds.
pub open spec fn max_plain_seconds() -> int {
    8_000_000_000_000
}

/// The moment `chrono` makes of seconds and nanoseconds since the epoch
/// (`Utc.timestamp_opt(..).single()`), when it makes one.
pub uninterp spec fn utc_from_timestamp(secs: i64, nsecs: u32) -> Option<UtcTime>;

/// `chrono::Utc.timestamp_opt(secs, nsecs).single()`, read back as seconds and
/// nanoseconds. A moment it gives reads back as the same seconds and
/// nanoseconds, as chrono documents. Nanoseconds of two seconds or more give
/// none, and so do those of one second or more outside the last second of a
/// minute (chrono's leap-second rule). Below one second, every moment within
/// `max_plain_seconds` of the epoch is given: chrono's dates span more than
/// 262,000 years either side of year 0. Where exactly its range ends is named,
/// not stated.
#[verifier::external_body]
fn utc_timestamp_opt(secs: i64, nsecs: u32) -> (r: Option<UtcTime>)
    ensures
        r == utc_from_timestamp(secs, nsecs),
        r matches Some(t) ==> t == (UtcTime { seconds: secs, nanos: nsecs }),
        nsecs >= 2_000_000_000 ==> r is None,
        nsecs >= 1_000_000_000 && secs % 60 != 59 ==> r is None,
        nsecs < 1_000_000_000 && -max_plain_seconds() <= secs <= max_plain_seconds() ==> r
            == Some(UtcTime { seconds: secs, nanos: nsecs }),
{
    chrono::TimeZone::timestamp_opt(&chrono::Utc, secs, nsecs).single().map(
        |dt| UtcTime { seconds: dt.timestamp(), nanos: dt.timestamp_subsec_nanos() },
    )
}

/// The moment a protobuf timestamp stands for; the Unix epoch when it stands
/// for none. Negative nanoseconds are read as the `u32` of the same bits.
/// A moment that chrono holds comes back as the same seconds and nanoseconds,
/// so a moment survives the trip to its protobuf form and back.
pub fn convert_from_timestamp_proto(ts: TimestampProto) -> (r: UtcTime)
    ensures
        r == match utc_from_timestamp(ts.seconds, ts.nanos as u32) {
            Some(t) => t,
            None => UtcTime { seconds: 0, nanos: 0 },
        },
        utc_from_timestamp(ts.seconds, ts.nanos as u32) is Some ==> r == (UtcTime {
            seconds: ts.seconds,
            nanos: ts.nanos as u32,
        }),
        ts.nanos < 0 ==> r == (UtcTime { seconds: 0, nanos: 0 }),
        0 <= ts.nanos < nanos_per_sec() && -max_plain_seconds() <= ts.seconds
            <= max_plain_seconds() ==> r == (UtcTime { seconds: ts.seconds, nanos: ts.nanos as u32 }),
{
    let n = ts.nanos;
    assert(n < 0 ==> (n as u32) >= 2_000_000_000) by (bit_vector);
    assert(n >= 0 ==> (n as u32) == n) by (bit_vector);
    match utc_timestamp_opt(ts.seconds, ts.nanos as u32) {
        Some(t) => t,
        // Fallback to Unix epoch for invalid timestamps
        None => UtcTime { seconds: 0, nanos: 0 },
    }
}

/// The largest span chrono holds, in nanoseconds (`i64::MAX` milliseconds).
pub open spec fn max_time_delta_nanos() -> int {
    i64::MAX as int * 1_000_000
}

/// The seconds and nanoseconds a protobuf span is read as: negative parts
/// count as zero.
pub open spec fn clamped_parts(d: DurationProto) -> (i64, i64) {
    (if d.seconds < 0 { 0 } else { d.seconds }, if d.nanos < 0 { 0 } else { d.nanos as i64 })
}

/// Whether chrono can hold the span a protobuf span is read as.
pub open spec fn duration_fits(d: DurationProto) -> bool {
    let (s, n) = clamped_parts(d);
    &&& s <= i64::MAX / 1000
    &&& s * nanos_per_sec() + n <= max_time_delta_nanos()
}

/// The span chrono makes of whole seconds and nanoseconds
/// (`TimeDelta::seconds(secs) + TimeDelta::nanoseconds(nanos)`).
pub uninterp spec fn time_delta_of(secs: i64, nanos: i64) -> chrono::TimeDelta;

/// `chrono::TimeDelta::seconds(secs) + chrono::TimeDelta::nanoseconds(nanos)`.
/// Neither the seconds call nor the sum panics on the inputs admitted here:
/// both parts are non-negative and their total stays within `TimeDelta::MAX`.
/// The span is a function of the two arguments alone; it is named, not stated.
#[verifier::external_body]
fn time_delta_from_parts(secs: i64, nanos: i64) -> (d: chrono::TimeDelta)
    requires
        0 <= secs <= i64::MAX / 1000,
        0 <= nanos,
        secs * nanos_per_sec() + nanos <= max_time_delta_nanos(),
    ensures
        d == time_delta_of(secs, nanos),
{
    chrono::TimeDelta::seconds(secs) + chrono::TimeDelta::nanoseconds(nanos)
}

/// The seconds and nanoseconds a protobuf span is read as.
pub fn duration_parts(d: &DurationProto) -> (r: (i64, i64))
    ensures
        r == clamped_parts(*d),
{
    let seconds = if d.seconds < 0 {
        0
    } else {
        d.seconds
    };
    let nanos = if d.nanos < 0 {
        0
    } else {
        d.nanos as i64
    };
    (seconds, nanos)
}

/// The chrono span a protobuf span stands for; negative parts count as zero.
pub fn convert_from_duration_proto(duration: DurationProto) -> (d: chrono::TimeDelta)
    requires
        duration_fits(duration),
    ensures
        d == time_delta_of(clamped_parts(duration).0, clamped_parts(duration).1),
{
    let (seconds, nanos) = duration_parts(&duration);
    time_delta_from_parts(seconds, nanos)
}

/// The statuses of the protobuf form, which also has an unspecified one.
#[derive(Debug, Clone, Copy, PartialEq, Eq, Structural)]
pub enum DownloadStatusProto {
    StatusUnspecified,
    Created,
    Queued,
    Connecting,
    Retrying,
    Downloading,
    Paused,
    Complete,
    Failed,
    Cancelled,
}

/// The protobuf form of a status: the status of the same name.
pub open spec fn status_to_proto(s: DownloadStatus) -> DownloadStatusProto {
    match s {
        DownloadStatus::Created => DownloadStatusProto::Created,
        DownloadStatus::Queued => DownloadStatusProto::Queued,
        DownloadStatus::Connecting => DownloadStatusProto::Connecting,
        DownloadStatus::Retrying => DownloadStatusProto::Retrying,
        DownloadStatus::Downloading => DownloadStatusProto::Downloading,
        DownloadStatus::Paused => DownloadStatusProto::Paused,
        DownloadStatus::Complete => DownloadStatusProto::Complete,
        DownloadStatus::Failed => DownloadStatusProto::Failed,
        DownloadStatus::Cancelled => DownloadStatusProto::Cancelled,
    }
}

/// The status a protobuf status stands for; an unspecified one counts as created.
pub open spec fn status_from_proto(s: DownloadStatusProto) -> DownloadStatus {
    match s {
        DownloadStatusProto::StatusUnspecified => DownloadStatus::Created,
        DownloadStatusProto::Created => DownloadStatus::Created,
        DownloadStatusProto::Queued => DownloadStatus::Queued,
        DownloadStatusProto::Connecting => DownloadStatus::Connecting,
        DownloadStatusProto::Retrying => DownloadStatus::Retrying,
        DownloadStatusProto::Downloading => DownloadStatus::Downloading,
        DownloadStatusProto::Paused => DownloadStatus::Paused,
        DownloadStatusProto::Complete => DownloadStatus::Complete,
        DownloadStatusProto::Failed => DownloadStatus::Failed,
        DownloadStatusProto::Cancelled => DownloadStatus::Cancelled,
    }
}

/// The protobuf form of a status.
pub fn convert_to_download_status_proto(status: &DownloadStatus) -> (r: DownloadStatusProto)
    ensures
        r == status_to_proto(*status),
{
    match status {
        DownloadStatus::Created => DownloadStatusProto::Created,
        DownloadStatus::Queued => DownloadStatusProto::Queued,
        DownloadStatus::Connecting => DownloadStatusProto::Connecting,
        DownloadStatus::Retrying => DownloadStatusProto::Retrying,
        DownloadStatus::Downloading => DownloadStatusProto::Downloading,
        DownloadStatus::Paused => DownloadStatusProto::Paused,
        DownloadStatus::Complete => DownloadStatusProto::Complete,
        DownloadStatus::Failed => DownloadStatusProto::Failed,
        DownloadStatus::Cancelled => DownloadStatusProto::Cancelled,
    }
}

/// The status a protobuf status stands for.
pub fn convert_from_download_status_proto(status: &DownloadStatusProto) -> (r: DownloadStatus)
    ensures
        r == status_from_proto(*status),
{
    match status {
        DownloadStatusProto::StatusUnspecified => DownloadStatus::Created,
        DownloadStatusProto::Created => DownloadStatus::Created,
        DownloadStatusProto::Queued => DownloadStatus::Queued,
        DownloadStatusProto::Connecting => DownloadStatus::Connecting,
        DownloadStatusProto::Retrying => DownloadStatus::Retrying,
        DownloadStatusProto::Downloading => DownloadStatus::Downloading,
        DownloadStatusProto::Paused => DownloadStatus::Paused,
        DownloadStatusProto::Complete => DownloadStatus::Complete,
        DownloadStatusProto::Failed => DownloadStatus::Failed,
        DownloadStatusProto::Cancelled => DownloadStatus::Cancelled,
    }
}

/// A status survives the trip to its protobuf form and back.
pub proof fn lemma_status_round_trip(s: DownloadStatus)
    ensures
        status_from_proto(status_to_proto(s)) == s,
{
}

/// The name of each protobuf status.
pub open spec fn proto_status_name(s: DownloadStatusProto) -> Seq<char> {
    match s {
        DownloadStatusProto::StatusUnspecified => "StatusUnspecified"@,
        DownloadStatusProto::Created => "Created"@,
        DownloadStatusProto::Queued => "Queued"@,
        DownloadStatusProto::Connecting => "Connecting"@,
        DownloadStatusProto::Retrying => "Retrying"@,
        DownloadStatusProto::Downloading => "Downloading"@,
        DownloadStatusProto::Paused => "Paused"@,
        DownloadStatusProto::Complete => "Complete"@,
        DownloadStatusProto::Failed => "Failed"@,
        DownloadStatusProto::Cancelled => "Cancelled"@,
    }
}

/// Statuses convert by name: each status becomes the protobuf status of the
/// same name, and each protobuf status but the unspecified one becomes the
/// status of the same name; the unspecified one counts as created.
pub proof fn lemma_status_same_name(s: DownloadStatus, p: DownloadStatusProto)
    ensures
        proto_status_name(status_to_proto(s)) == status_label(s),
        p != DownloadStatusProto::StatusUnspecified ==> status_label(status_from_proto(p))
            == proto_status_name(p),
        p == DownloadStatusProto::StatusUnspecified ==> status_from_proto(p) == DownloadStatus::Created,
{
}

} // verus!
